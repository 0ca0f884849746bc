//! The request to the language model. Sending it is the caller's part.

use vstd::prelude::*;

verus! {

/// The prompt for the message `content` written by `author`.
pub open spec fn prompt_text(author: Seq<char>, content: Seq<char>) -> Seq<char> {
    "Author: "@ + author + "\nMessage: "@ + content
}

/// The prompt carries the author's name and the whole message: it starts
/// with `Author: `, then the name, then a line `Message: ` followed by every
/// character of the message, nothing cut and nothing after it.
pub proof fn lemma_prompt_carries_whole_message(author: Seq<char>, content: Seq<char>)
    ensures
        prompt_text(author, content).len() == 18 + author.len() + content.len(),
        prompt_text(author, content).subrange(0, 8) == "Author: "@,
        prompt_text(author, content).subrange(8, 8 + author.len() as int) == author,
        prompt_text(author, content).subrange(8 + author.len() as int, 18 + author.len() as int)
            == "\nMessage: "@,
        prompt_text(author, content).subrange(
            18 + author.len() as int,
            prompt_text(author, content).len() as int,
        ) == content,
{
    reveal_strlit("Author: ");
    reveal_strlit("\nMessage: ");
    let p = prompt_text(author, content);
    let o = 8 + author.len() as int;
    assert(p.subrange(0, 8) =~= "Author: "@);
    assert(p.subrange(8, o) =~= author);
    assert(p.subrange(o, o + 10) =~= "\nMessage: "@);
    assert(p.subrange(o + 10, p.len() as int) =~= content);
}

/// Builds the prompt for the message `content` written by `author`.
pub fn generation_prompt(author: &str, content: &str) -> (s: String)
    ensures
        s@ == prompt_text(author@, content@),
{
    let mut s = String::from_str("Author: ");
    s.append(author);
    s.append("\nMessage: ");
    s.append(content);
    s
}

} // verus!
