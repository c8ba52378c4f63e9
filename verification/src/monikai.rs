//! The agent: its persona, its memories and the conversation it is in, and
//! the steps that change them.

use crate::decay::days_between;
use crate::memory::{age_label, seconds_between, Memory, MemoryView};
use crate::openai::{lines_of, Message, MessageView};
use crate::prompts::{
    automatic_memory_check_prompt, automatic_memory_check_prompt_text, manual_memory_check_prompt,
    manual_memory_check_prompt_text, memory_context, memory_context_view, profile_context,
    profile_context_view,
};
use crate::ranker::{is_pick, lemma_pick_exists, lemma_pick_unique, most_similar, pick, standings};
use crate::text::{join_lines, joined};
use vstd::prelude::*;
use vstd::string::*;

verus! {

/// The agent's state.
#[derive(Debug)]
pub struct Monikai {
    /// The persona.
    pub description: String,
    /// What is kept of earlier conversations, oldest first.
    pub memories: Vec<Memory>,
    /// The turns of the conversation under way; empty between conversations.
    pub current_conversation: Vec<Message>,
    /// Seconds since the epoch at which the counterpart last spoke.
    pub last_spoken_to: u64,
}

/// What a [`Monikai`] holds.
pub struct MonikaiView {
    pub description: Seq<char>,
    pub memories: Seq<MemoryView>,
    pub current_conversation: Seq<MessageView>,
    pub last_spoken_to: nat,
}

impl View for Monikai {
    type V = MonikaiView;

    open spec fn view(&self) -> MonikaiView {
        MonikaiView {
            description: self.description@,
            memories: self.memories.deep_view(),
            current_conversation: self.current_conversation.deep_view(),
            last_spoken_to: self.last_spoken_to as nat,
        }
    }
}

/// What is put before the generators to answer the latest turn.
#[derive(Debug)]
pub struct Exchange {
    /// The turns for the chat generator: the persona, what is known of the
    /// counterpart, then the conversation.
    pub messages: Vec<Message>,
    /// Asks the text generator whether a memory is needed, and which.
    pub manual_memory_check_prompt: String,
    /// Asks the text generator for a phrase to search the memories for.
    pub automatic_memory_check_prompt: String,
}

/// What an [`Exchange`] holds.
pub struct ExchangeView {
    pub messages: Seq<MessageView>,
    pub manual_memory_check_prompt: Seq<char>,
    pub automatic_memory_check_prompt: Seq<char>,
}

impl View for Exchange {
    type V = ExchangeView;

    open spec fn view(&self) -> ExchangeView {
        ExchangeView {
            messages: self.messages.deep_view(),
            manual_memory_check_prompt: self.manual_memory_check_prompt@,
            automatic_memory_check_prompt: self.automatic_memory_check_prompt@,
        }
    }
}

/// A memory was distilled from another conversation than the one it was to
/// close.
#[derive(Debug, Clone, Copy, PartialEq, Eq, Structural)]
pub struct StateConflictError;

/// What the text generator answered to a memory check prompt.
#[derive(Debug)]
pub struct MemoryDiveConformation {
    pub needs_memory_check: bool,
    pub memory_check_phrase: String,
}

/// Tells the memories that do not fade at `current_time`.
pub open spec fn stays(current_time: nat) -> spec_fn(MemoryView) -> bool {
    |memory: MemoryView| !memory.fades_at(current_time)
}

/// Tells the memories that fade at `current_time`.
pub open spec fn goes(current_time: nat) -> spec_fn(MemoryView) -> bool {
    |memory: MemoryView| memory.fades_at(current_time)
}

/// The phrases to search the memories for, in the order of the searches: that
/// of the automatic check where it was understood, then that of the manual
/// check where it was understood and asks for a search.
pub open spec fn key_phrases_of(
    automatic: Option<MemoryDiveConformation>,
    manual: Option<MemoryDiveConformation>,
) -> Seq<Seq<char>> {
    let first = match automatic {
        Some(check) => seq![check.memory_check_phrase@],
        None => Seq::empty(),
    };
    let second = match manual {
        Some(check) => if check.needs_memory_check {
            seq![check.memory_check_phrase@]
        } else {
            Seq::empty()
        },
        None => Seq::empty(),
    };
    first + second
}

impl MonikaiView {
    /// What is known of the counterpart: the user profiles of all memories,
    /// one on each line.
    pub open spec fn user_profile(self) -> Seq<char> {
        joined(Seq::new(self.memories.len(), |i: int| self.memories[i].user_profile))
    }

    /// The conversation under way, one turn on each line.
    pub open spec fn transcript(self) -> Seq<char> {
        joined(lines_of(self.current_conversation))
    }

    /// The state after the counterpart said `message` when the clock read
    /// `current_time`.
    pub open spec fn heard(self, message: Seq<char>, current_time: nat) -> MonikaiView {
        MonikaiView {
            current_conversation: self.current_conversation.push(
                MessageView { role: "user"@, content: message },
            ),
            last_spoken_to: current_time,
            ..self
        }
    }

    /// The state after the agent answered `response`.
    pub open spec fn answered(self, response: Seq<char>) -> MonikaiView {
        MonikaiView {
            current_conversation: self.current_conversation.push(
                MessageView { role: "assistant"@, content: response },
            ),
            ..self
        }
    }

    /// The state after the memory at `index` was recalled once more.
    pub open spec fn recalling(self, index: int) -> MonikaiView {
        MonikaiView {
            memories: self.memories.update(index, self.memories[index].recalled()),
            ..self
        }
    }

    /// The memory that a search for `query` picks, by the scores given in the
    /// order of the memories.
    pub open spec fn most_similar(self, query: Seq<u64>, scores: Seq<u64>) -> int {
        pick(standings(self.memories, query, scores))
    }

    /// Whether a conversation is under way.
    pub open spec fn is_active(self) -> bool {
        self.current_conversation.len() > 0
    }

    /// Whether `memory` closes the conversation under way: there is one, and
    /// the memory was distilled from it as it stands.
    pub open spec fn closes_with(self, memory: MemoryView) -> bool {
        self.is_active() && memory.conversation == self.transcript()
    }

    /// The state after an attempt to close the conversation under way with
    /// `memory`: the memory is added and the conversation emptied, or nothing
    /// changes.
    pub open spec fn closed(self, memory: MemoryView) -> MonikaiView {
        if self.closes_with(memory) {
            MonikaiView {
                memories: self.memories.push(memory),
                current_conversation: Seq::empty(),
                ..self
            }
        } else {
            self
        }
    }

    /// The state without memories and without a conversation under way.
    pub open spec fn reset(self, keep_description: bool) -> MonikaiView {
        MonikaiView {
            description: if keep_description {
                self.description
            } else {
                Seq::empty()
            },
            memories: Seq::empty(),
            current_conversation: Seq::empty(),
            last_spoken_to: 0,
        }
    }

    /// The state after the memories that fade at `current_time` are gone. The
    /// others keep their order.
    pub open spec fn swept(self, current_time: nat) -> MonikaiView {
        MonikaiView { memories: self.memories.filter(stays(current_time)), ..self }
    }

    /// The state with the embeddings left out.
    pub open spec fn redacted(self) -> MonikaiView {
        MonikaiView {
            memories: Seq::new(self.memories.len(), |i: int| self.memories[i].redacted()),
            ..self
        }
    }

    /// Whether a conversation is under way and the whole minutes since the
    /// counterpart last spoke exceed five.
    pub open spec fn idle(self, current_time: nat) -> bool {
        seconds_between(self.last_spoken_to, current_time) / 60 > 5 && self.is_active()
    }

    /// The turns for the chat generator: the persona, what is known of the
    /// counterpart, then the conversation under way.
    pub open spec fn chat(self) -> Seq<MessageView> {
        seq![
            MessageView { role: "system"@, content: self.description },
            profile_context_view(self.user_profile()),
        ] + self.current_conversation
    }

    /// What is put before the generators to answer the latest turn.
    pub open spec fn exchange(self) -> ExchangeView {
        let recent = self.chat().last().content;
        ExchangeView {
            messages: self.chat(),
            manual_memory_check_prompt: manual_memory_check_prompt_text(
                self.user_profile(),
                recent,
            ),
            automatic_memory_check_prompt: automatic_memory_check_prompt_text(
                self.user_profile(),
                recent,
            ),
        }
    }
}

impl ExchangeView {
    /// The exchange with `context` put behind the two leading turns, or at
    /// the end where fewer than two turns stand.
    pub open spec fn remembering(self, context: MessageView) -> ExchangeView {
        let at = if self.messages.len() >= 2 {
            2
        } else {
            self.messages.len() as int
        };
        ExchangeView { messages: self.messages.insert(at, context), ..self }
    }
}

/// The phrases to search the memories for, given what was understood of the
/// answers to the two memory check prompts.
pub fn key_phrases(
    automatic: Option<MemoryDiveConformation>,
    manual: Option<MemoryDiveConformation>,
) -> (phrases: Vec<String>)
    ensures
        phrases.deep_view() == key_phrases_of(automatic, manual),
{
    let mut phrases: Vec<String> = Vec::new();
    if let Some(check) = automatic {
        phrases.push(check.memory_check_phrase);
    }
    if let Some(check) = manual {
        if check.needs_memory_check {
            phrases.push(check.memory_check_phrase);
        }
    }
    assert(phrases.deep_view() =~= key_phrases_of(automatic, manual));
    phrases
}

fn clone_turns(turns: &Vec<Message>) -> (copy: Vec<Message>)
    ensures
        copy.deep_view() == turns.deep_view(),
{
    let mut copy: Vec<Message> = Vec::new();
    let mut i: usize = 0;
    while i < turns.len()
        invariant
            i <= turns.len(),
            copy.len() == i,
            copy.deep_view() == turns.deep_view().take(i as int),
        decreases turns.len() - i,
    {
        copy.push(turns[i].clone());
        assert(copy.deep_view() =~= turns.deep_view().take(i + 1));
        i += 1;
    }
    assert(turns.deep_view().take(turns.len() as int) =~= turns.deep_view());
    copy
}

fn clone_memories(memories: &Vec<Memory>) -> (copy: Vec<Memory>)
    ensures
        copy.deep_view() == memories.deep_view(),
{
    let mut copy: Vec<Memory> = Vec::new();
    let mut i: usize = 0;
    while i < memories.len()
        invariant
            i <= memories.len(),
            copy.len() == i,
            copy.deep_view() == memories.deep_view().take(i as int),
        decreases memories.len() - i,
    {
        copy.push(memories[i].clone());
        assert(copy.deep_view() =~= memories.deep_view().take(i + 1));
        i += 1;
    }
    assert(memories.deep_view().take(memories.len() as int) =~= memories.deep_view());
    copy
}

impl Clone for Monikai {
    fn clone(&self) -> (copy: Self)
        ensures
            copy@ == self@,
    {
        Monikai {
            description: self.description.clone(),
            memories: clone_memories(&self.memories),
            current_conversation: clone_turns(&self.current_conversation),
            last_spoken_to: self.last_spoken_to,
        }
    }
}

impl Exchange {
    /// Puts the turn that hands over a recalled memory behind the two leading
    /// turns, before what was put there earlier.
    pub fn remember(&mut self, context: Message)
        ensures
            final(self)@ == old(self)@.remembering(context@),
    {
        let at: usize = if self.messages.len() >= 2 {
            2
        } else {
            self.messages.len()
        };
        self.messages.insert(at, context);
        assert(self.messages.deep_view() =~= old(self).messages.deep_view().insert(
            at as int,
            context@,
        ));
    }
}

impl Monikai {
    /// Whether a conversation is under way.
    pub fn is_active(&self) -> (active: bool)
        ensures
            active == self@.is_active(),
    {
        self.current_conversation.len() > 0
    }

    /// What is known of the counterpart: the user profiles of all memories,
    /// one on each line.
    pub fn user_profile(&self) -> (profile: String)
        ensures
            profile@ == self@.user_profile(),
    {
        let mut profiles: Vec<String> = Vec::new();
        let mut i: usize = 0;
        while i < self.memories.len()
            invariant
                i <= self.memories.len(),
                profiles.len() == i,
                forall|j: int| 0 <= j < i ==> profiles[j]@ == self.memories[j].user_profile@,
            decreases self.memories.len() - i,
        {
            profiles.push(self.memories[i].user_profile.clone());
            i += 1;
        }
        assert(profiles.deep_view() =~= Seq::new(
            self@.memories.len(),
            |i: int| self@.memories[i].user_profile,
        ));
        join_lines(&profiles)
    }

    /// The conversation under way, one turn on each line.
    pub fn transcript(&self) -> (text: String)
        ensures
            text@ == self@.transcript(),
    {
        let mut lines: Vec<String> = Vec::new();
        let mut i: usize = 0;
        while i < self.current_conversation.len()
            invariant
                i <= self.current_conversation.len(),
                lines.len() == i,
                forall|j: int| 0 <= j < i ==> lines[j]@ == self.current_conversation[j]@.line(),
            decreases self.current_conversation.len() - i,
        {
            lines.push(self.current_conversation[i].to_string());
            i += 1;
        }
        assert(lines.deep_view() =~= lines_of(self@.current_conversation));
        join_lines(&lines)
    }

    /// What is put before the generators to answer the latest turn.
    pub fn exchange(&self) -> (exchange: Exchange)
        ensures
            exchange@ == self@.exchange(),
    {
        let user_profile = self.user_profile();
        let mut messages = clone_turns(&self.current_conversation);
        let persona = Message::new("system", self.description.clone());
        let profile = profile_context(user_profile.as_str());
        let ghost turns = messages.deep_view();
        messages.insert(0, persona);
        messages.insert(1, profile);
        assert(messages.deep_view() =~= seq![persona@, profile@] + turns);
        let last = messages.len() - 1;
        assert(messages[last as int]@ == messages.deep_view().last());
        let manual = manual_memory_check_prompt(
            user_profile.as_str(),
            messages[last].content.as_str(),
        );
        let automatic = automatic_memory_check_prompt(
            user_profile.as_str(),
            messages[last].content.as_str(),
        );
        Exchange {
            messages,
            manual_memory_check_prompt: manual,
            automatic_memory_check_prompt: automatic,
        }
    }

    /// Takes in what the counterpart said when the clock read `current_time`,
    /// and lays out what is put before the generators to answer it.
    pub fn send_message(&mut self, message: String, current_time: u64) -> (exchange: Exchange)
        ensures
            final(self)@ == old(self)@.heard(message@, current_time as nat),
            exchange@ == final(self)@.exchange(),
    {
        self.last_spoken_to = current_time;
        self.current_conversation.push(Message::new("user", message));
        assert(self.current_conversation.deep_view() =~= old(self)@.current_conversation.push(
            MessageView { role: "user"@, content: message@ },
        ));
        self.exchange()
    }

    /// Takes in the answer of the chat generator, and hands it on.
    pub fn respond(&mut self, response: String) -> (reply: String)
        ensures
            final(self)@ == old(self)@.answered(response@),
            reply@ == response@,
    {
        self.current_conversation.push(Message::new("assistant", response.clone()));
        assert(self.current_conversation.deep_view() =~= old(self)@.current_conversation.push(
            MessageView { role: "assistant"@, content: response@ },
        ));
        response
    }

    /// Counts one more recall of the memory at `index`.
    fn count_recall(&mut self, index: usize)
        requires
            index < old(self).memories.len(),
        ensures
            final(self)@ == old(self)@.recalling(index as int),
            final(self).memories.len() == old(self).memories.len(),
            final(self).memories[index as int]@ == old(self).memories[index as int]@.recalled(),
    {
        let memory = &mut self.memories[index];
        if memory.times_read < usize::MAX {
            memory.times_read = memory.times_read + 1;
        }
        assert(self.memories.deep_view() =~= old(self)@.memories.update(
            index as int,
            old(self)@.memories[index as int].recalled(),
        ));
    }

    /// Searches the memories for `query`, by the scores given in the order of
    /// the memories, counts the recall of the one picked and hands out the turn
    /// that tells the chat generator of it. Without memories nothing is found
    /// and nothing changes.
    pub fn recall(&mut self, query: &Vec<u64>, scores: &Vec<u64>, current_time: u64) -> (context:
        Option<Message>)
        ensures
            context is None <==> old(self)@.memories.len() == 0,
            context is None ==> final(self)@ == old(self)@,
            context matches Some(turn) ==> {
                let best = old(self)@.most_similar(query@, scores@);
                &&& is_pick(standings(old(self)@.memories, query@, scores@), best)
                &&& final(self)@ == old(self)@.recalling(best)
                &&& turn@ == memory_context_view(
                    age_label(
                        seconds_between(old(self)@.memories[best].timestamp, current_time as nat),
                    ),
                    old(self)@.memories[best].conversation,
                )
            },
    {
        match most_similar(&self.memories, query, scores) {
            None => None,
            Some(best) => {
                proof {
                    let ranking = standings(self@.memories, query@, scores@);
                    lemma_pick_exists(ranking);
                    lemma_pick_unique(ranking, best as int, pick(ranking));
                }
                self.count_recall(best);
                let age = self.memories[best].readable_time_since(current_time);
                Some(memory_context(age.as_str(), self.memories[best].conversation.as_str()))
            },
        }
    }

    /// Searches the memories for `query`, by the scores given in the order of
    /// the memories, counts the recall of the one picked and hands out its
    /// conversation. Without memories nothing is found and nothing changes.
    pub fn lookup_similar(&mut self, query: &Vec<u64>, scores: &Vec<u64>) -> (found: Option<String>)
        ensures
            found is None <==> old(self)@.memories.len() == 0,
            found is None ==> final(self)@ == old(self)@,
            found matches Some(conversation) ==> {
                let best = old(self)@.most_similar(query@, scores@);
                &&& is_pick(standings(old(self)@.memories, query@, scores@), best)
                &&& final(self)@ == old(self)@.recalling(best)
                &&& conversation@ == old(self)@.memories[best].conversation
            },
    {
        match most_similar(&self.memories, query, scores) {
            None => None,
            Some(best) => {
                proof {
                    let ranking = standings(self@.memories, query@, scores@);
                    lemma_pick_exists(ranking);
                    lemma_pick_unique(ranking, best as int, pick(ranking));
                }
                self.count_recall(best);
                Some(self.memories[best].conversation.clone())
            },
        }
    }

    /// Closes the conversation under way with the memory distilled from it.
    ///
    /// Without a conversation under way nothing changes, and the answer is
    /// `Ok(false)`. A memory distilled from another transcript than that of the
    /// conversation as it stands is refused, and nothing changes: the turns
    /// that came in meanwhile are not lost, and the distilling can be done
    /// again. Otherwise the memory is added behind the others, the conversation
    /// is emptied, and the answer is `Ok(true)`.
    pub fn end_conversation(&mut self, memory: Memory) -> (ended: Result<bool, StateConflictError>)
        ensures
            final(self)@ == old(self)@.closed(memory@),
            ended == if !old(self)@.is_active() {
                Ok::<bool, StateConflictError>(false)
            } else if memory@.conversation == old(self)@.transcript() {
                Ok::<bool, StateConflictError>(true)
            } else {
                Err::<bool, StateConflictError>(StateConflictError)
            },
    {
        if !self.is_active() {
            return Ok(false);
        }
        let transcript = self.transcript();
        if !(memory.conversation == transcript) {
            return Err(StateConflictError);
        }
        self.memories.push(memory);
        self.current_conversation.clear();
        assert(self.memories.deep_view() =~= old(self)@.memories.push(memory@));
        assert(self.current_conversation.deep_view() =~= Seq::<MessageView>::empty());
        Ok(true)
    }

    /// Forgets all memories and the conversation under way, and the persona
    /// too unless it is to be kept.
    pub fn reset(&mut self, keep_description: bool)
        ensures
            final(self)@ == old(self)@.reset(keep_description),
    {
        if !keep_description {
            self.description = String::new();
        }
        self.memories = Vec::new();
        self.current_conversation = Vec::new();
        self.last_spoken_to = 0;
        assert(self.memories.deep_view() =~= Seq::<MemoryView>::empty());
        assert(self.current_conversation.deep_view() =~= Seq::<MessageView>::empty());
    }

    /// A copy of the state without the embeddings, for a log.
    pub fn snapshot_for_logging(&self) -> (snapshot: Monikai)
        ensures
            snapshot@ == self@.redacted(),
    {
        let mut memories: Vec<Memory> = Vec::new();
        let mut i: usize = 0;
        while i < self.memories.len()
            invariant
                i <= self.memories.len(),
                memories.len() == i,
                forall|j: int| 0 <= j < i ==> memories[j]@ == self.memories[j]@.redacted(),
            decreases self.memories.len() - i,
        {
            let memory = &self.memories[i];
            memories.push(
                Memory {
                    embedding: Vec::new(),
                    user_profile: memory.user_profile.clone(),
                    interaction_summary: memory.interaction_summary.clone(),
                    conversation: memory.conversation.clone(),
                    timestamp: memory.timestamp,
                    times_read: memory.times_read,
                },
            );
            i += 1;
        }
        assert(memories.deep_view() =~= self@.redacted().memories);
        Monikai {
            description: self.description.clone(),
            memories,
            current_conversation: clone_turns(&self.current_conversation),
            last_spoken_to: self.last_spoken_to,
        }
    }
}

/// One round of forgetting: removes the memories that fade when the clock
/// reads `current_time`, and hands them out. The others stay, in their order.
pub fn monikai_memory_agent(monikai: &mut Monikai, current_time: u64) -> (forgotten: Vec<Memory>)
    ensures
        final(monikai)@ == old(monikai)@.swept(current_time as nat),
        forgotten.deep_view() == old(monikai)@.memories.filter(goes(current_time as nat)),
{
    let ghost all = monikai@.memories;
    let ghost stay = stays(current_time as nat);
    let ghost go = goes(current_time as nat);
    let mut kept: Vec<Memory> = Vec::new();
    let mut forgotten: Vec<Memory> = Vec::new();
    let mut i: usize = 0;
    proof {
        reveal(Seq::filter);
        assert(all.take(0).filter(stay) =~= Seq::<MemoryView>::empty());
        assert(all.take(0).filter(go) =~= Seq::<MemoryView>::empty());
    }
    while i < monikai.memories.len()
        invariant
            i <= monikai.memories.len(),
            *monikai == *old(monikai),
            all == monikai@.memories,
            stay == stays(current_time as nat),
            go == goes(current_time as nat),
            kept.deep_view() == all.take(i as int).filter(stay),
            forgotten.deep_view() == all.take(i as int).filter(go),
        decreases monikai.memories.len() - i,
    {
        let ghost kept_before = kept.deep_view();
        let ghost forgotten_before = forgotten.deep_view();
        let memory = monikai.memories[i].clone();
        proof {
            reveal(Seq::filter);
            assert(all.take(i + 1).drop_last() =~= all.take(i as int));
            assert(all.take(i + 1).last() == memory@);
        }
        if memory.is_forgotten(current_time) {
            forgotten.push(memory);
            assert(forgotten.deep_view() =~= forgotten_before.push(memory@));
        } else {
            kept.push(memory);
            assert(kept.deep_view() =~= kept_before.push(memory@));
        }
        i += 1;
    }
    assert(all.take(monikai.memories.len() as int) =~= all);
    monikai.memories = kept;
    forgotten
}

/// Tells, when the clock reads `current_time`, whether the conversation under
/// way is to be closed because the counterpart has been silent for too long.
pub fn monikai_autosave(monikai: &Monikai, current_time: u64) -> (close: bool)
    ensures
        close == monikai@.idle(current_time as nat),
{
    let minutes_since = current_time.saturating_sub(monikai.last_spoken_to) / 60;
    minutes_since > 5 && monikai.is_active()
}

/// A search among memories of which there is one finds that one, whatever the
/// scores, and counts its first recall.
pub proof fn lemma_single_memory_is_found(state: MonikaiView, query: Seq<u64>, scores: Seq<u64>)
    requires
        state.memories.len() == 1,
    ensures
        state.most_similar(query, scores) == 0,
        state.memories[0].times_read == 0 ==> state.recalling(0).memories[0].times_read == 1,
{
    let ranking = standings(state.memories, query, scores);
    lemma_pick_exists(ranking);
}

/// Closing changes nothing where no conversation is under way, and so nothing
/// the second time: after a conversation was closed none is under way.
pub proof fn lemma_closing_again_changes_nothing(
    state: MonikaiView,
    first: MemoryView,
    second: MemoryView,
)
    ensures
        !state.is_active() ==> state.closed(first) == state,
        state.closes_with(first) ==> state.closed(first).closed(second) == state.closed(first),
{
}

/// From first turn to recall: an agent without memories that heard and
/// answered two turns, and whose conversation was then closed with a memory
/// distilled from it that was never recalled, holds that one memory; every
/// search finds it, hands out the transcript of the four turns, and counts the
/// first recall.
pub proof fn lemma_closed_conversation_is_found(
    state: MonikaiView,
    turns: (Seq<char>, Seq<char>, Seq<char>, Seq<char>),
    times: (nat, nat),
    memory: MemoryView,
    query: Seq<u64>,
    scores: Seq<u64>,
)
    requires
        state.memories.len() == 0,
        !state.is_active(),
        memory.times_read == 0,
        memory.conversation == state.heard(turns.0, times.0).answered(turns.1).heard(
            turns.2,
            times.1,
        ).answered(turns.3).transcript(),
    ensures
        ({
            let spoken = state.heard(turns.0, times.0).answered(turns.1).heard(
                turns.2,
                times.1,
            ).answered(turns.3);
            let closed = spoken.closed(memory);
            let best = closed.most_similar(query, scores);
            &&& !closed.is_active()
            &&& closed.memories == seq![memory]
            &&& best == 0
            &&& closed.memories[best].conversation == spoken.transcript()
            &&& closed.recalling(best).memories[best].times_read == 1
        }),
{
    let spoken = state.heard(turns.0, times.0).answered(turns.1).heard(turns.2, times.1).answered(
        turns.3,
    );
    let closed = spoken.closed(memory);
    assert(closed.memories =~= seq![memory]);
    lemma_single_memory_is_found(closed, query, scores);
}

/// A recall changes one memory, and of it only the count of recalls, which
/// never goes down.
pub proof fn lemma_recall_only_counts(state: MonikaiView, index: int, other: int)
    requires
        0 <= index < state.memories.len(),
        0 <= other < state.memories.len(),
    ensures
        state.recalling(index).memories.len() == state.memories.len(),
        other != index ==> state.recalling(index).memories[other] == state.memories[other],
        state.recalling(index).memories[index].times_read >= state.memories[index].times_read,
        state.recalling(index).memories[index] == (MemoryView {
            times_read: state.recalling(index).memories[index].times_read,
            ..state.memories[index]
        }),
{
}

/// A round of forgetting and a turn of the conversation do not disturb each
/// other: in either order they lead to the same state.
pub proof fn lemma_forgetting_commutes_with_turns(
    state: MonikaiView,
    current_time: nat,
    message: Seq<char>,
    spoken_at: nat,
    response: Seq<char>,
)
    ensures
        state.swept(current_time).heard(message, spoken_at) == state.heard(
            message,
            spoken_at,
        ).swept(current_time),
        state.swept(current_time).answered(response) == state.answered(response).swept(
            current_time,
        ),
{
}

/// A round of forgetting keeps every memory that is at most two days old, and
/// every memory that was recalled fifty times or more.
pub proof fn lemma_sweep_keeps_fresh_and_lasting(state: MonikaiView, current_time: nat, index: int)
    requires
        0 <= index < state.memories.len(),
        days_between(state.memories[index].timestamp, current_time) <= 2
            || state.memories[index].times_read >= 50,
    ensures
        state.swept(current_time).memories.contains(state.memories[index]),
{
    state.memories.lemma_filter_contains(stays(current_time), index);
}

} // verus!
