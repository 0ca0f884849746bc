use chrono::Datelike;
use discord_bots::cleanup_bot::cloud_storage::onedrive::client::{
    chunk_accepted, chunk_ranges, chunk_upload_error, content_range, simple_upload_error,
    simple_upload_url, upload_mode, upload_session_error, upload_session_url, ChunkedUpload,
    OneDriveClient,
    UploadMode, CHUNK_SIZE, SIMPLE_UPLOAD_LIMIT,
};
use discord_bots::cleanup_bot::cloud_storage::proton_drive::client::{
    command_failed_error, create_folder_args, folder_steps, list_folders_args, listing_has_folder,
    listing_parse_error, non_utf8_path_error, upload_args, ListedNode, ProtonDriveClient,
};
use discord_bots::cleanup_bot::cloud_storage::{
    build_relative_remote_path, dated_remote_path, CloudStorageError,
};

fn today_prefix() -> String {
    let now = chrono::Utc::now();
    format!("{:04}/{:02}/{:02}", now.year(), now.month(), now.day())
}

#[test]
fn remote_path_from_dated_folder() {
    assert_eq!(build_relative_remote_path("media_backups/2024-01-05/a.png"), "2024/01/05/a.png");
    assert_eq!(build_relative_remote_path("/x/1999-12-31/photo 1.jpg"), "1999/12/31/photo 1.jpg");
}

#[test]
fn remote_path_falls_back_to_today() {
    let p = build_relative_remote_path("media_backups/not-a-date/a.png");
    assert_eq!(p, format!("{}/a.png", today_prefix()));
    let p = build_relative_remote_path("a.png");
    assert_eq!(p, format!("{}/a.png", today_prefix()));
    let p = build_relative_remote_path("media/2024-02-30/a.png");
    assert_eq!(p, format!("{}/a.png", today_prefix()));
}

#[test]
fn remote_path_of_nameless_file() {
    let p = build_relative_remote_path("media/2024-01-05/..");
    assert!(p.ends_with("/unknown"));
}

#[test]
fn dated_remote_path_pads() {
    assert_eq!(dated_remote_path("f", 987, 3, 4), "0987/03/04/f");
    assert_eq!(dated_remote_path("f", 2024, 12, 31), "2024/12/31/f");
}

#[test]
fn onedrive_remote_path_trims_trailing_slashes() {
    let client = OneDriveClient::new("/discord-backups///".to_string());
    assert_eq!(
        client.build_remote_path("dl/2024-01-05/a.png"),
        "/discord-backups/2024/01/05/a.png"
    );
}

#[test]
fn onedrive_upload_mode_limit() {
    assert!(matches!(upload_mode(0), UploadMode::Simple));
    assert!(matches!(upload_mode(SIMPLE_UPLOAD_LIMIT - 1), UploadMode::Simple));
    assert!(matches!(upload_mode(SIMPLE_UPLOAD_LIMIT), UploadMode::Resumable));
    assert_eq!(SIMPLE_UPLOAD_LIMIT, 4 * 1024 * 1024);
}

#[test]
fn onedrive_urls() {
    assert_eq!(
        simple_upload_url("/b/2024/01/05/a.png"),
        "https://graph.microsoft.com/v1.0/me/drive/root:/b/2024/01/05/a.png:/content"
    );
    assert_eq!(
        upload_session_url("/b/a.png"),
        "https://graph.microsoft.com/v1.0/me/drive/root:/b/a.png:/createUploadSession"
    );
}

#[test]
fn onedrive_chunks_match_slice_chunks() {
    for total in [0usize, 1, CHUNK_SIZE - 1, CHUNK_SIZE, CHUNK_SIZE + 1, 3 * CHUNK_SIZE + 17] {
        let ranges = chunk_ranges(total);
        let expected: Vec<(usize, usize)> = (0..total)
            .step_by(CHUNK_SIZE)
            .map(|start| (start, (start + CHUNK_SIZE).min(total) - 1))
            .collect();
        assert_eq!(ranges, expected);
    }
    assert_eq!(content_range(0, 10_485_759, 25_000_000), "bytes 0-10485759/25000000");
}

#[test]
fn onedrive_chunk_answers() {
    assert!(chunk_accepted(200));
    assert!(chunk_accepted(201));
    assert!(chunk_accepted(202));
    assert!(!chunk_accepted(308));
    assert!(!chunk_accepted(404));
}

#[test]
fn onedrive_error_texts() {
    let e = simple_upload_error("404 Not Found", "nope");
    assert_eq!(e.message(), "Upload failed: Upload failed with status 404 Not Found: nope");
    let e = upload_session_error("401 Unauthorized", "");
    assert!(matches!(&e, CloudStorageError::Upload(m) if m == "Failed to create upload session: 401 Unauthorized: "));
    let e = chunk_upload_error("500 Internal Server Error", "x");
    assert!(matches!(&e, CloudStorageError::Upload(m) if m == "Chunk upload failed: 500 Internal Server Error: x"));
}

#[test]
fn error_messages_of_each_kind() {
    assert_eq!(CloudStorageError::Http("timeout".to_string()).message(), "HTTP request failed: timeout");
    assert_eq!(CloudStorageError::Auth("denied".to_string()).message(), "Authentication failed: denied");
    assert_eq!(CloudStorageError::TokenStorage("bad".to_string()).message(), "Token storage error: bad");
    assert_eq!(CloudStorageError::Upload("late".to_string()).message(), "Upload failed: late");
    assert_eq!(CloudStorageError::Io("gone".to_string()).message(), "IO error: gone");
}

#[test]
fn proton_remote_folder() {
    let client = ProtonDriveClient::new("/discord-backups/".to_string());
    assert_eq!(client.remote_folder("dl/2024-01-05/a.png"), "/my-files/discord-backups/2024/01/05");
    let client = ProtonDriveClient::new("nested/dir".to_string());
    assert_eq!(client.remote_folder("dl/2023-11-30/b.txt"), "/my-files/nested/dir/2023/11/30");
}

#[test]
fn proton_folder_steps_skip_the_section() {
    let steps = folder_steps("/my-files/discord-backups/2024/01/05");
    let expected: Vec<(String, String)> = vec![
        ("/my-files".to_string(), "discord-backups".to_string()),
        ("/my-files/discord-backups".to_string(), "2024".to_string()),
        ("/my-files/discord-backups/2024".to_string(), "01".to_string()),
        ("/my-files/discord-backups/2024/01".to_string(), "05".to_string()),
    ];
    assert_eq!(steps, expected);
    assert!(folder_steps("/").is_empty());
    assert!(folder_steps("/my-files").is_empty());
    assert_eq!(folder_steps("//a//b/"), vec![("/a".to_string(), "b".to_string())]);
}

#[test]
fn proton_listing_lookup() {
    let nodes = vec![
        ListedNode { node_type: Some("file".to_string()), name: Some("2024".to_string()) },
        ListedNode { node_type: Some("folder".to_string()), name: None },
        ListedNode { node_type: None, name: Some("2024".to_string()) },
        ListedNode { node_type: Some("folder".to_string()), name: Some("2023".to_string()) },
    ];
    assert!(!listing_has_folder(&nodes, "2024"));
    assert!(listing_has_folder(&nodes, "2023"));
    assert!(!listing_has_folder(&Vec::new(), "2023"));
}

#[test]
fn proton_command_lines() {
    assert_eq!(list_folders_args("/my-files"), vec!["filesystem", "list", "-t", "folder", "/my-files", "-j"]);
    assert_eq!(create_folder_args("/my-files", "b"), vec!["filesystem", "create-folder", "/my-files", "b"]);
    assert_eq!(
        upload_args("dl/a.png", "/my-files/b"),
        vec!["filesystem", "upload", "-f", "replace", "-d", "merge", "dl/a.png", "/my-files/b"]
    );
}

#[test]
fn proton_errors() {
    let args = create_folder_args("/my-files", "b");
    let e = command_failed_error(&args, "denied\n");
    assert_eq!(e.message(), "Upload failed: `proton-drive filesystem create-folder /my-files b` failed: denied\n");
    assert!(matches!(listing_parse_error("EOF"), CloudStorageError::Upload(m) if m == "Failed to parse folder listing: EOF"));
    assert!(matches!(non_utf8_path_error(), CloudStorageError::Upload(m) if m == "Local path is not valid UTF-8"));
}

#[test]
fn chunked_upload_stops_at_the_first_refused_chunk() {
    let total = 2 * CHUNK_SIZE + 5;
    let mut upload = ChunkedUpload::new(total);
    assert_eq!(upload.next_chunk(), Some((0, CHUNK_SIZE - 1)));
    assert!(upload.on_answer(202));
    assert_eq!(upload.next_chunk(), Some((CHUNK_SIZE, 2 * CHUNK_SIZE - 1)));
    assert!(!upload.on_answer(500));
    assert_eq!(upload.next_chunk(), None);

    let mut upload = ChunkedUpload::new(total);
    let mut sent = Vec::new();
    while let Some(range) = upload.next_chunk() {
        sent.push(range);
        assert!(upload.on_answer(200));
    }
    assert_eq!(sent, chunk_ranges(total));
    assert_eq!(ChunkedUpload::new(0).next_chunk(), None);
}
