//! What the bot does with each message it sees.
//!
//! Talking to Discord and to the language model is the caller's part. The
//! caller reports what happened as a [`MessageEvent`] and performs the
//! [`MessageAction`] it gets back.

use vstd::prelude::*;

use crate::summarizer::config::Config;
use crate::summarizer::llm::{generation_prompt, prompt_text};
use crate::text::{format_user_mention, user_mention, utf8_len};

verus! {

/// The message handler; `G` is what generates the summaries.
pub struct Handler<G> {
    summary_generator: G,
    /// Messages at least this long are summarized.
    message_length_min: usize,
    /// Messages longer than this are not summarized.
    message_length_max: usize,
}

/// Where the handling of one message stands.
pub enum SummaryPhase {
    /// Nothing has happened yet.
    Idle,
    /// The announcement was sent; `prompt` waits for the model.
    Announcing { prompt: String },
    /// The model is writing the summary.
    Summarizing,
    /// The handling is over.
    Done,
}

/// What happened since the last step of the handling of a message.
pub enum MessageEvent {
    /// A message was posted: its author, whether the author is a bot, and
    /// its text.
    Received { author_id: u64, author_name: String, author_is_bot: bool, content: String },
    /// Sending the announcement succeeded or failed.
    Announced { ok: bool },
    /// The model's summary, or `None` when generating it failed.
    Summarized { summary: Option<String> },
}

/// What the caller does next with a message.
pub enum MessageAction {
    /// Nothing: the message is not summarized, or the event does not belong.
    Skip,
    /// Posts `text` in the message's channel, keeping the posted message.
    Announce { text: String },
    /// Asks the model to summarize with `prompt`.
    Summarize { prompt: String },
    /// Replaces the announcement's text with the summary.
    EditAnnouncement { content: String },
    /// Deletes the announcement: no summary could be made.
    DeleteAnnouncement,
    /// Stops: the announcement could not be sent.
    Stop,
}

/// The announcement posted before the summary.
pub open spec fn announcement_text(author_id: nat) -> Seq<char> {
    ":hourglass: Summarizing message from "@ + user_mention(author_id)
}

impl<G> Handler<G> {
    /// The lower length bound.
    pub closed spec fn min_len(self) -> usize {
        self.message_length_min
    }

    /// The upper length bound.
    pub closed spec fn max_len(self) -> usize {
        self.message_length_max
    }

    /// The generator of summaries.
    pub closed spec fn generator(self) -> G {
        self.summary_generator
    }

    /// Whether a message is summarized: never one of a bot (which would loop),
    /// otherwise one whose length in bytes lies between the bounds; shorter
    /// messages do not trigger a summary and longer ones are ignored, direct
    /// messages included.
    pub open spec fn summarizes(self, author_is_bot: bool, len: nat) -> bool {
        !author_is_bot && self.min_len() <= len && len <= self.max_len()
    }

    /// A handler with the length bounds of `config`.
    pub fn new(summary_generator: G, config: &Config) -> (h: Self)
        ensures
            h.generator() == summary_generator,
            h.min_len() == config.message_length_min,
            h.max_len() == config.message_length_max,
    {
        Handler {
            summary_generator,
            message_length_min: config.message_length_min,
            message_length_max: config.message_length_max,
        }
    }

    /// The generator of summaries.
    pub fn summary_generator(&self) -> (g: &G)
        ensures
            *g == self.generator(),
    {
        &self.summary_generator
    }

    /// One step of the handling of a message.
    pub fn step(&self, phase: SummaryPhase, event: MessageEvent) -> (r: (SummaryPhase, MessageAction))
        requires
            event matches MessageEvent::Received { content, .. } ==> utf8_len(content@)
                <= usize::MAX,
        ensures
            r.1 is Announce ==> event matches MessageEvent::Received { author_is_bot: false, .. },
            match (phase, event) {
                (
                    SummaryPhase::Idle,
                    MessageEvent::Received { author_id, author_name, author_is_bot, content },
                ) => if self.summarizes(author_is_bot, utf8_len(content@)) {
                    &&& r.0 matches SummaryPhase::Announcing { prompt }
                    &&& prompt@ == prompt_text(author_name@, content@)
                    &&& r.1 matches MessageAction::Announce { text }
                    &&& text@ == announcement_text(author_id as nat)
                } else {
                    r.0 is Done && r.1 is Skip
                },
                (SummaryPhase::Announcing { prompt }, MessageEvent::Announced { ok }) => if ok {
                    r.0 is Summarizing && r.1 == (MessageAction::Summarize { prompt })
                } else {
                    r.0 is Done && r.1 is Stop
                },
                (SummaryPhase::Summarizing, MessageEvent::Summarized { summary }) => {
                    &&& r.0 is Done
                    &&& match summary {
                        Some(s) => r.1 == (MessageAction::EditAnnouncement { content: s }),
                        None => r.1 is DeleteAnnouncement,
                    }
                },
                _ => r.0 == phase && r.1 is Skip,
            },
    {
        match (phase, event) {
            (
                SummaryPhase::Idle,
                MessageEvent::Received { author_id, author_name, author_is_bot, content },
            ) => {
                let text = content.as_str();
                proof {
                    crate::text::lemma_str_len_is_utf8_len(text);
                }
                let len = text.len();
                if !author_is_bot && self.message_length_min <= len && len
                    <= self.message_length_max {
                    let prompt = generation_prompt(author_name.as_str(), content.as_str());
                    let mut text = String::from_str(":hourglass: Summarizing message from ");
                    text.append(format_user_mention(author_id).as_str());
                    (SummaryPhase::Announcing { prompt }, MessageAction::Announce { text })
                } else {
                    (SummaryPhase::Done, MessageAction::Skip)
                }
            },
            (SummaryPhase::Announcing { prompt }, MessageEvent::Announced { ok }) => {
                if ok {
                    (SummaryPhase::Summarizing, MessageAction::Summarize { prompt })
                } else {
                    (SummaryPhase::Done, MessageAction::Stop)
                }
            },
            (SummaryPhase::Summarizing, MessageEvent::Summarized { summary }) => match summary {
                Some(s) => (SummaryPhase::Done, MessageAction::EditAnnouncement { content: s }),
                None => (SummaryPhase::Done, MessageAction::DeleteAnnouncement),
            },
            (phase, _) => (phase, MessageAction::Skip),
        }
    }
}

} // verus!
