//! Memories: what is kept of a finished conversation.

use crate::decay::{days_between, days_since, fades, is_fading};
use crate::text::{decimal, decimal_string};
use vstd::prelude::*;
use vstd::string::*;

verus! {

/// An embedding: the IEEE 754 binary64 bit patterns of its coordinates.
pub type Embedding = Vec<u64>;

/// What was learned about the counterpart.
pub type UserProfile = String;

/// What a conversation was about.
pub type InteractionSummary = String;

/// A transcript: the turns of a conversation, one on each line.
pub type Conversation = String;

/// What is kept of one finished conversation.
#[derive(Debug)]
pub struct Memory {
    pub embedding: Embedding,
    pub user_profile: UserProfile,
    pub interaction_summary: InteractionSummary,
    pub conversation: Conversation,
    /// Seconds since the epoch at which the distilling began.
    pub timestamp: u64,
    /// How often the memory was picked as the most similar one.
    pub times_read: usize,
}

/// What a [`Memory`] holds.
pub struct MemoryView {
    pub embedding: Seq<u64>,
    pub user_profile: Seq<char>,
    pub interaction_summary: Seq<char>,
    pub conversation: Seq<char>,
    pub timestamp: nat,
    pub times_read: nat,
}

impl MemoryView {
    /// The memory after one more recall. The count stops at the largest
    /// number that the machine can hold.
    pub open spec fn recalled(self) -> MemoryView {
        MemoryView {
            times_read: if self.times_read < usize::MAX {
                self.times_read + 1
            } else {
                self.times_read
            },
            ..self
        }
    }

    /// The memory without its embedding.
    pub open spec fn redacted(self) -> MemoryView {
        MemoryView { embedding: Seq::empty(), ..self }
    }

    /// Whether the memory fades when the clock reads `current_time`.
    pub open spec fn fades_at(self, current_time: nat) -> bool {
        fades(days_between(self.timestamp, current_time), self.times_read)
    }
}

impl View for Memory {
    type V = MemoryView;

    open spec fn view(&self) -> MemoryView {
        MemoryView {
            embedding: self.embedding@,
            user_profile: self.user_profile@,
            interaction_summary: self.interaction_summary@,
            conversation: self.conversation@,
            timestamp: self.timestamp as nat,
            times_read: self.times_read as nat,
        }
    }
}

impl DeepView for Memory {
    type V = MemoryView;

    open spec fn deep_view(&self) -> MemoryView {
        self@
    }
}

impl Clone for Memory {
    fn clone(&self) -> (copy: Self)
        ensures
            copy@ == self@,
    {
        Memory {
            embedding: self.embedding.clone(),
            user_profile: self.user_profile.clone(),
            interaction_summary: self.interaction_summary.clone(),
            conversation: self.conversation.clone(),
            timestamp: self.timestamp,
            times_read: self.times_read,
        }
    }
}

/// The generator whose failure stopped the distilling of a memory.
#[derive(Debug, Clone, Copy, PartialEq, Eq, Structural)]
pub enum GenerationError {
    Embedding,
    UserProfile,
    InteractionSummary,
}

/// What the user profile prompt says before the conversation.
pub const USER_PROFILE_PROMPT_HEAD: &'static str = "\n            \
    In the following conversation, you are Monikai.\n            \
    Create a USER PROFILE detailing what you've learned about the MC from the following conversation.\n\
    \n            \
    Example:\n            \
    I have learned that the MC enjoys ..., ..., and .... In the future, I should talk about ... more.\n\
    \n            \
    CONVERSATION:\n            ";

/// What the user profile prompt says after the conversation.
pub const USER_PROFILE_PROMPT_TAIL: &'static str = "\n        \
    \n            \
    USER PROFILE:\n\
    \n        ";

/// What the interaction summary prompt says before the conversation.
pub const INTERACTION_SUMMARY_PROMPT_HEAD: &'static str = "\n            \
    In the following conversation, you are Monikai.\n            \
    Create an INTERACTION SUMMARY detailing what you've learned about the MC from the following conversation.\n\
    \n            \
    Example:\n            \
    We talked about ..., ..., and ....\n\
    \n            \
    CONVERSATION:\n            ";

/// What the interaction summary prompt says after the conversation.
pub const INTERACTION_SUMMARY_PROMPT_TAIL: &'static str = "\n        \
    \n            \
    INTERACTION SUMMARY:\n\
    \n        ";

/// The prompt that asks for a user profile of `conversation`.
pub open spec fn user_profile_prompt_text(conversation: Seq<char>) -> Seq<char> {
    USER_PROFILE_PROMPT_HEAD@ + conversation + USER_PROFILE_PROMPT_TAIL@
}

/// The prompt that asks for a summary of `conversation`.
pub open spec fn interaction_summary_prompt_text(conversation: Seq<char>) -> Seq<char> {
    INTERACTION_SUMMARY_PROMPT_HEAD@ + conversation + INTERACTION_SUMMARY_PROMPT_TAIL@
}

/// The age `seconds` in words: in whole days beyond one day, else in whole
/// hours beyond one hour, else in whole minutes beyond one minute, else in
/// seconds.
pub open spec fn age_label(seconds: nat) -> Seq<char> {
    if seconds > 86400 {
        decimal(seconds / 86400) + " day/s"@
    } else if seconds > 3600 {
        decimal(seconds / 3600) + " hour/s"@
    } else if seconds > 60 {
        decimal(seconds / 60) + " minute/s"@
    } else {
        decimal(seconds) + " seconds"@
    }
}

/// The seconds from `timestamp` to `current_time`, zero where the clock reads
/// earlier than the timestamp.
pub open spec fn seconds_between(timestamp: nat, current_time: nat) -> nat {
    if current_time >= timestamp {
        (current_time - timestamp) as nat
    } else {
        0
    }
}

impl Memory {
    /// Joins the answers of the three generators into the memory of
    /// `conversation`, begun at `timestamp`. An answer that is missing stands
    /// for a generator that failed: then no memory is made, and the error names
    /// the first generator that failed, in the order of the parameters.
    pub fn new(
        conversation: Conversation,
        timestamp: u64,
        embedding: Option<Embedding>,
        user_profile: Option<UserProfile>,
        interaction_summary: Option<InteractionSummary>,
    ) -> (made: Result<Memory, GenerationError>)
        ensures
            match made {
                Ok(memory) => {
                    &&& embedding is Some
                    &&& user_profile is Some
                    &&& interaction_summary is Some
                    &&& memory@ == (MemoryView {
                        embedding: embedding->0@,
                        user_profile: user_profile->0@,
                        interaction_summary: interaction_summary->0@,
                        conversation: conversation@,
                        timestamp: timestamp as nat,
                        times_read: 0,
                    })
                },
                Err(GenerationError::Embedding) => embedding is None,
                Err(GenerationError::UserProfile) => embedding is Some && user_profile is None,
                Err(GenerationError::InteractionSummary) => {
                    &&& embedding is Some
                    &&& user_profile is Some
                    &&& interaction_summary is None
                },
            },
    {
        match embedding {
            None => Err(GenerationError::Embedding),
            Some(embedding) => match user_profile {
                None => Err(GenerationError::UserProfile),
                Some(user_profile) => match interaction_summary {
                    None => Err(GenerationError::InteractionSummary),
                    Some(interaction_summary) => Ok(
                        Memory {
                            embedding,
                            user_profile,
                            interaction_summary,
                            conversation,
                            timestamp,
                            times_read: 0,
                        },
                    ),
                },
            },
        }
    }

    /// The prompt that asks the text generator for a user profile of
    /// `conversation`.
    pub fn user_profile_prompt(conversation: &str) -> (prompt: String)
        ensures
            prompt@ == user_profile_prompt_text(conversation@),
    {
        let mut prompt = String::from_str(USER_PROFILE_PROMPT_HEAD);
        prompt.append(conversation);
        prompt.append(USER_PROFILE_PROMPT_TAIL);
        prompt
    }

    /// The prompt that asks the text generator for a summary of
    /// `conversation`.
    pub fn interaction_summary_prompt(conversation: &str) -> (prompt: String)
        ensures
            prompt@ == interaction_summary_prompt_text(conversation@),
    {
        let mut prompt = String::from_str(INTERACTION_SUMMARY_PROMPT_HEAD);
        prompt.append(conversation);
        prompt.append(INTERACTION_SUMMARY_PROMPT_TAIL);
        prompt
    }

    /// The age of the memory in words, when the clock reads `current_time`.
    pub fn readable_time_since(&self, current_time: u64) -> (label: String)
        ensures
            label@ == age_label(seconds_between(self@.timestamp, current_time as nat)),
    {
        let seconds_since = current_time.saturating_sub(self.timestamp);
        if seconds_since > 86400 {
            let mut label = decimal_string(seconds_since / 86400);
            label.append(" day/s");
            label
        } else if seconds_since > 3600 {
            let mut label = decimal_string(seconds_since / 3600);
            label.append(" hour/s");
            label
        } else if seconds_since > 60 {
            let mut label = decimal_string(seconds_since / 60);
            label.append(" minute/s");
            label
        } else {
            let mut label = decimal_string(seconds_since);
            label.append(" seconds");
            label
        }
    }

    /// Whether the memory fades when the clock reads `current_time`.
    pub fn is_forgotten(&self, current_time: u64) -> (gone: bool)
        ensures
            gone == self@.fades_at(current_time as nat),
    {
        is_fading(days_since(self.timestamp, current_time), self.times_read)
    }
}

} // verus!
