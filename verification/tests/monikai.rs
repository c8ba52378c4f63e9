use monikai::memory::Memory;
use monikai::monikai::{
    key_phrases, monikai_autosave, monikai_memory_agent, Exchange, MemoryDiveConformation, Monikai,
    StateConflictError,
};
use monikai::openai::Message;

const DAY: u64 = 86400;

fn memory(profile: &str, conversation: &str, timestamp: u64, times_read: usize) -> Memory {
    Memory {
        embedding: vec![1.0f64.to_bits(), 0.0f64.to_bits()],
        user_profile: String::from(profile),
        interaction_summary: String::from("summary"),
        conversation: String::from(conversation),
        timestamp,
        times_read,
    }
}

fn agent(memories: Vec<Memory>) -> Monikai {
    Monikai {
        description: String::from("You are Monikai."),
        memories,
        current_conversation: Vec::new(),
        last_spoken_to: 0,
    }
}

fn bits(scores: &[f64]) -> Vec<u64> {
    scores.iter().map(|score| score.to_bits()).collect()
}

fn turns(messages: &[Message]) -> Vec<(String, String)> {
    messages.iter().map(|message| (message.role.clone(), message.content.clone())).collect()
}

fn turn(role: &str, content: &str) -> (String, String) {
    (String::from(role), String::from(content))
}

fn check(needs_memory_check: bool, phrase: &str) -> Option<MemoryDiveConformation> {
    Some(MemoryDiveConformation { needs_memory_check, memory_check_phrase: String::from(phrase) })
}

#[test]
fn user_profile_joins_the_profiles() {
    assert_eq!(agent(vec![]).user_profile(), "");
    assert_eq!(agent(vec![memory("likes tea", "", 0, 0)]).user_profile(), "likes tea");
    let state = agent(vec![memory("likes tea", "", 0, 0), memory("likes books", "", 0, 0)]);
    assert_eq!(state.user_profile(), "likes tea\nlikes books");
}

#[test]
fn transcript_joins_the_turns() {
    let mut state = agent(vec![]);
    assert_eq!(state.transcript(), "");
    state.send_message(String::from("Hello!"), 10);
    assert_eq!(state.transcript(), "user: Hello!");
    state.respond(String::from("Hi!"));
    assert_eq!(state.transcript(), "user: Hello!\nassistant: Hi!");
}

#[test]
fn send_message_adds_the_turn_and_stamps_the_time() {
    let mut state = agent(vec![]);
    state.send_message(String::from("Hello!"), 1234);
    assert_eq!(turns(&state.current_conversation), vec![turn("user", "Hello!")]);
    assert_eq!(state.last_spoken_to, 1234);
    assert_eq!(state.description, "You are Monikai.");
    assert!(state.memories.is_empty());
    state.send_message(String::from("Anyone?"), 1300);
    assert_eq!(
        turns(&state.current_conversation),
        vec![turn("user", "Hello!"), turn("user", "Anyone?")]
    );
    assert_eq!(state.last_spoken_to, 1300);
}

#[test]
fn send_message_lays_out_the_exchange() {
    let mut state = agent(vec![]);
    let exchange = state.send_message(String::from("Hello!"), 1234);
    assert_eq!(
        turns(&exchange.messages),
        vec![
            turn("system", "You are Monikai."),
            turn("system", "The following is information about MC you have gathered from previous conversations. "),
            turn("user", "Hello!"),
        ]
    );
    assert_eq!(exchange.manual_memory_check_prompt, "\n            In the following conversation, you are 'assistant' (or Monikai).\n            Decide and return JSON on whether based on the user profile and current conversation if you have the context to answer.\n            If not, create a phrase to rack your memory for. For instance, if the user wants to know about a car recommendation:\n\n            Example:\n            {\n                \"needs_memory_check\": true,\n                \"memory_check_phrase\": \"car recommendations\"\n            }\n\n            USER PROFILE:\n            \n\n            RECENT CONVERSATION:\n            Hello!\n\n            Response:\n            {\n            ");
    assert_eq!(exchange.automatic_memory_check_prompt, "\n            In the following conversation, you are the 'assistant' (or Monikai).\n            Generate an incredibly short phrase to check your memory embeddings for similar things to the current conversation.\n\n            Example:\n            {\n                \"needs_memory_check\": true,\n                \"memory_check_phrase\": \"car recommendations\"\n            }\n\n            USER PROFILE:\n            \n\n            RECENT CONVERSATION:\n            Hello!\n\n            Response:\n            {\n                \"needs_memory_check\": true,\n            ");
}

#[test]
fn exchange_holds_profile_and_conversation() {
    let mut state = agent(vec![memory("likes tea", "", 0, 0), memory("likes books", "", 0, 0)]);
    state.send_message(String::from("Hello!"), 1);
    state.respond(String::from("Hi!"));
    let exchange = state.send_message(String::from("And you?"), 2);
    assert_eq!(
        turns(&exchange.messages),
        vec![
            turn("system", "You are Monikai."),
            turn("system", "The following is information about MC you have gathered from previous conversations. likes tea\nlikes books"),
            turn("user", "Hello!"),
            turn("assistant", "Hi!"),
            turn("user", "And you?"),
        ]
    );
    assert_eq!(exchange.manual_memory_check_prompt, "\n            In the following conversation, you are 'assistant' (or Monikai).\n            Decide and return JSON on whether based on the user profile and current conversation if you have the context to answer.\n            If not, create a phrase to rack your memory for. For instance, if the user wants to know about a car recommendation:\n\n            Example:\n            {\n                \"needs_memory_check\": true,\n                \"memory_check_phrase\": \"car recommendations\"\n            }\n\n            USER PROFILE:\n            likes tea\nlikes books\n\n            RECENT CONVERSATION:\n            And you?\n\n            Response:\n            {\n            ");
    assert_eq!(exchange.automatic_memory_check_prompt, "\n            In the following conversation, you are the 'assistant' (or Monikai).\n            Generate an incredibly short phrase to check your memory embeddings for similar things to the current conversation.\n\n            Example:\n            {\n                \"needs_memory_check\": true,\n                \"memory_check_phrase\": \"car recommendations\"\n            }\n\n            USER PROFILE:\n            likes tea\nlikes books\n\n            RECENT CONVERSATION:\n            And you?\n\n            Response:\n            {\n                \"needs_memory_check\": true,\n            ");
}

#[test]
fn exchange_without_conversation_speaks_of_the_profile() {
    let state = agent(vec![memory("likes tea", "", 0, 0)]);
    let exchange = state.exchange();
    assert_eq!(exchange.messages.len(), 2);
    let recent = exchange.messages[1].content.clone();
    assert_eq!(
        exchange.manual_memory_check_prompt,
        monikai::prompts::manual_memory_check_prompt("likes tea", &recent)
    );
}

#[test]
fn remember_puts_the_memory_behind_the_leading_turns() {
    let mut state = agent(vec![]);
    let mut exchange = state.send_message(String::from("Hello!"), 1);
    exchange.remember(Message::new("system", String::from("first")));
    exchange.remember(Message::new("system", String::from("second")));
    assert_eq!(
        turns(&exchange.messages),
        vec![
            turn("system", "You are Monikai."),
            turn("system", "The following is information about MC you have gathered from previous conversations. "),
            turn("system", "second"),
            turn("system", "first"),
            turn("user", "Hello!"),
        ]
    );
}

#[test]
fn remember_with_fewer_turns_puts_the_memory_last() {
    let mut exchange = Exchange {
        messages: vec![Message::new("system", String::from("persona"))],
        manual_memory_check_prompt: String::new(),
        automatic_memory_check_prompt: String::new(),
    };
    exchange.remember(Message::new("system", String::from("memory")));
    assert_eq!(turns(&exchange.messages), vec![turn("system", "persona"), turn("system", "memory")]);
}

#[test]
fn respond_adds_the_answer() {
    let mut state = agent(vec![]);
    state.send_message(String::from("Hello!"), 50);
    let reply = state.respond(String::from("Hi there!"));
    assert_eq!(reply, "Hi there!");
    assert_eq!(
        turns(&state.current_conversation),
        vec![turn("user", "Hello!"), turn("assistant", "Hi there!")]
    );
    assert_eq!(state.last_spoken_to, 50);
}

#[test]
fn key_phrases_of_both_checks() {
    assert_eq!(key_phrases(check(true, "cars"), check(true, "car advice")), vec!["cars", "car advice"]);
    assert_eq!(key_phrases(check(false, "cars"), check(true, "car advice")), vec!["cars", "car advice"]);
}

#[test]
fn key_phrases_without_manual_search() {
    assert_eq!(key_phrases(check(true, "cars"), check(false, "car advice")), vec!["cars"]);
    assert_eq!(key_phrases(check(true, "cars"), None), vec!["cars"]);
}

#[test]
fn key_phrases_without_automatic_check() {
    assert_eq!(key_phrases(None, check(true, "car advice")), vec!["car advice"]);
    assert_eq!(key_phrases(None, check(false, "car advice")), Vec::<String>::new());
    assert_eq!(key_phrases(None, None), Vec::<String>::new());
}

#[test]
fn lookup_among_no_memories_finds_nothing() {
    let mut state = agent(vec![]);
    assert_eq!(state.lookup_similar(&bits(&[1.0, 0.0]), &vec![]), None);
    assert_eq!(state.lookup_similar(&bits(&[1.0, 0.0]), &bits(&[0.5])), None);
    assert!(state.memories.is_empty());
    assert_eq!(state.recall(&bits(&[1.0, 0.0]), &vec![], 99).map(|turn| turn.content), None);
}

#[test]
fn lookup_of_the_only_memory_counts_its_first_recall() {
    for score in [0.9, 0.0, -0.9, f64::NAN, f64::INFINITY] {
        let mut state = agent(vec![memory("likes tea", "user: tea?\nassistant: Green.", 0, 0)]);
        let found = state.lookup_similar(&bits(&[1.0, 0.0]), &bits(&[score]));
        assert_eq!(found, Some(String::from("user: tea?\nassistant: Green.")));
        assert_eq!(state.memories.len(), 1);
        assert_eq!(state.memories[0].times_read, 1);
    }
}

#[test]
fn lookup_counts_only_the_memory_picked() {
    let mut state = agent(vec![
        memory("a", "first", 10, 4),
        memory("b", "second", 20, 0),
        memory("c", "third", 30, 7),
    ]);
    let found = state.lookup_similar(&bits(&[1.0, 0.0]), &bits(&[0.2, 0.8, 0.5]));
    assert_eq!(found, Some(String::from("second")));
    let counts: Vec<usize> = state.memories.iter().map(|memory| memory.times_read).collect();
    assert_eq!(counts, vec![4, 1, 7]);
    let order: Vec<&str> = state.memories.iter().map(|memory| memory.conversation.as_str()).collect();
    assert_eq!(order, vec!["first", "second", "third"]);
    let found = state.lookup_similar(&bits(&[1.0, 0.0]), &bits(&[0.8, 0.8, 0.5]));
    assert_eq!(found, Some(String::from("second")));
    let counts: Vec<usize> = state.memories.iter().map(|memory| memory.times_read).collect();
    assert_eq!(counts, vec![4, 2, 7]);
}

#[test]
fn lookup_keeps_the_rest_of_the_state() {
    let mut state = agent(vec![memory("a", "first", 10, 4)]);
    state.send_message(String::from("Hello!"), 77);
    let before = state.clone();
    state.lookup_similar(&bits(&[1.0, 0.0]), &bits(&[0.2]));
    assert_eq!(state.description, before.description);
    assert_eq!(turns(&state.current_conversation), turns(&before.current_conversation));
    assert_eq!(state.last_spoken_to, 77);
    assert_eq!(state.memories[0].embedding, before.memories[0].embedding);
    assert_eq!(state.memories[0].user_profile, "a");
    assert_eq!(state.memories[0].interaction_summary, "summary");
    assert_eq!(state.memories[0].timestamp, 10);
}

#[test]
fn recall_count_stops_at_the_largest_number() {
    let mut state = agent(vec![memory("a", "first", 10, usize::MAX)]);
    let found = state.lookup_similar(&bits(&[1.0, 0.0]), &bits(&[0.2]));
    assert_eq!(found, Some(String::from("first")));
    assert_eq!(state.memories[0].times_read, usize::MAX);
}

#[test]
fn recall_hands_out_the_memory_and_its_age() {
    let mut state = agent(vec![
        memory("a", "user: coffee?\nassistant: Black.", 5 * DAY, 0),
        memory("b", "user: tea?\nassistant: Green.", 8 * DAY, 2),
    ]);
    let context = state.recall(&bits(&[1.0, 0.0]), &bits(&[0.1, 0.6]), 10 * DAY + 1).unwrap();
    assert_eq!(context.role, "system");
    assert_eq!(context.content, "You believe you may need additional information to respond. Here is a related memory from 2 day/s ago: user: tea?\nassistant: Green.");
    assert_eq!(state.memories[0].times_read, 0);
    assert_eq!(state.memories[1].times_read, 3);
}

#[test]
fn conversation_is_under_way_between_first_turn_and_end() {
    let mut state = agent(vec![]);
    assert!(!state.is_active());
    state.send_message(String::from("Hello!"), 100);
    assert!(state.is_active());
    state.respond(String::from("Hi!"));
    assert!(state.is_active());
    let distilled = memory("p", &state.transcript(), 100, 0);
    assert_eq!(state.end_conversation(distilled), Ok(true));
    assert!(!state.is_active());
    state.send_message(String::from("Again"), 200);
    state.reset(true);
    assert!(!state.is_active());
}

#[test]
fn end_of_no_conversation_adds_no_memory() {
    let mut state = agent(vec![memory("a", "first", 10, 4)]);
    let distilled = memory("b", "", 20, 0);
    assert_eq!(state.end_conversation(distilled), Ok(false));
    assert_eq!(state.memories.len(), 1);
    assert!(state.current_conversation.is_empty());
    let distilled = memory("b", "user: hi", 20, 0);
    assert_eq!(state.end_conversation(distilled), Ok(false));
    assert_eq!(state.memories.len(), 1);
}

#[test]
fn end_of_a_conversation_adds_its_memory() {
    let mut state = agent(vec![memory("a", "first", 10, 4)]);
    state.send_message(String::from("Hello!"), 100);
    state.respond(String::from("Hi!"));
    let transcript = state.transcript();
    let distilled = Memory::new(
        transcript,
        100,
        Some(bits(&[0.5, 0.5])),
        Some(String::from("says hello")),
        Some(String::from("greetings")),
    )
    .unwrap();
    assert_eq!(state.end_conversation(distilled), Ok(true));
    assert!(state.current_conversation.is_empty());
    assert_eq!(state.memories.len(), 2);
    assert_eq!(state.memories[0].conversation, "first");
    assert_eq!(state.memories[1].conversation, "user: Hello!\nassistant: Hi!");
    assert_eq!(state.memories[1].user_profile, "says hello");
    assert_eq!(state.memories[1].interaction_summary, "greetings");
    assert_eq!(state.memories[1].embedding, bits(&[0.5, 0.5]));
    assert_eq!(state.memories[1].timestamp, 100);
    assert_eq!(state.memories[1].times_read, 0);
    assert_eq!(state.last_spoken_to, 100);
    assert_eq!(state.description, "You are Monikai.");
}

#[test]
fn end_twice_adds_one_memory() {
    let mut state = agent(vec![]);
    state.send_message(String::from("Hello!"), 100);
    let distilled = memory("p", "user: Hello!", 100, 0);
    assert_eq!(state.end_conversation(distilled.clone()), Ok(true));
    assert_eq!(state.end_conversation(distilled), Ok(false));
    assert_eq!(state.memories.len(), 1);
    assert!(state.current_conversation.is_empty());
}

#[test]
fn end_with_a_stale_memory_is_refused() {
    let mut state = agent(vec![]);
    state.send_message(String::from("Hello!"), 100);
    let distilled = memory("p", &state.transcript(), 100, 0);
    state.respond(String::from("Hi!"));
    assert_eq!(state.end_conversation(distilled), Err(StateConflictError));
    assert!(state.memories.is_empty());
    assert_eq!(
        turns(&state.current_conversation),
        vec![turn("user", "Hello!"), turn("assistant", "Hi!")]
    );
    let again = memory("p", &state.transcript(), 100, 0);
    assert_eq!(state.end_conversation(again), Ok(true));
    assert_eq!(state.memories.len(), 1);
}

#[test]
fn two_turns_then_end_then_lookup() {
    let mut state = agent(vec![]);
    state.send_message(String::from("Do you have any good book recommendations?"), 1000);
    state.respond(String::from("Dune - Frank Herbert!!"));
    state.send_message(String::from("Thanks!"), 1010);
    state.respond(String::from("Any time."));
    let transcript = state.transcript();
    assert_eq!(
        transcript,
        "user: Do you have any good book recommendations?\nassistant: Dune - Frank Herbert!!\nuser: Thanks!\nassistant: Any time."
    );
    let distilled = Memory::new(
        transcript.clone(),
        1020,
        Some(bits(&[0.6, 0.8])),
        Some(String::from("I have learned that the MC enjoys books.")),
        Some(String::from("We talked about books.")),
    )
    .unwrap();
    assert_eq!(state.end_conversation(distilled), Ok(true));
    assert!(state.current_conversation.is_empty());
    let query = bits(&[0.6, 0.8]);
    let score = (0.6f64 * 0.6 + 0.8 * 0.8) / (1.0 + 1.0);
    let found = state.lookup_similar(&query, &bits(&[score]));
    assert_eq!(found, Some(transcript));
    assert_eq!(state.memories[0].times_read, 1);
}

#[test]
fn reset_keeps_the_description() {
    let mut state = agent(vec![memory("a", "first", 10, 4)]);
    state.send_message(String::from("Hello!"), 100);
    state.reset(true);
    assert_eq!(state.description, "You are Monikai.");
    assert!(state.memories.is_empty());
    assert!(state.current_conversation.is_empty());
    assert_eq!(state.last_spoken_to, 0);
}

#[test]
fn reset_drops_the_description() {
    let mut state = agent(vec![memory("a", "first", 10, 4)]);
    state.send_message(String::from("Hello!"), 100);
    state.reset(false);
    assert_eq!(state.description, "");
    assert!(state.memories.is_empty());
    assert!(state.current_conversation.is_empty());
    assert_eq!(state.last_spoken_to, 0);
}

#[test]
fn snapshot_for_logging_leaves_out_the_embeddings() {
    let mut state = agent(vec![memory("a", "first", 10, 4), memory("b", "second", 20, 0)]);
    state.send_message(String::from("Hello!"), 100);
    let snapshot = state.snapshot_for_logging();
    assert_eq!(snapshot.description, "You are Monikai.");
    assert_eq!(snapshot.last_spoken_to, 100);
    assert_eq!(turns(&snapshot.current_conversation), vec![turn("user", "Hello!")]);
    assert_eq!(snapshot.memories.len(), 2);
    for (copy, source) in snapshot.memories.iter().zip(state.memories.iter()) {
        assert!(copy.embedding.is_empty());
        assert_eq!(copy.user_profile, source.user_profile);
        assert_eq!(copy.interaction_summary, source.interaction_summary);
        assert_eq!(copy.conversation, source.conversation);
        assert_eq!(copy.timestamp, source.timestamp);
        assert_eq!(copy.times_read, source.times_read);
    }
    assert_eq!(state.memories[0].embedding.len(), 2);
}

#[test]
fn clone_keeps_the_state() {
    let mut state = agent(vec![memory("a", "first", 10, 4)]);
    state.send_message(String::from("Hello!"), 100);
    let copy = state.clone();
    assert_eq!(copy.description, state.description);
    assert_eq!(copy.last_spoken_to, 100);
    assert_eq!(turns(&copy.current_conversation), turns(&state.current_conversation));
    assert_eq!(copy.memories.len(), 1);
    assert_eq!(copy.memories[0].embedding, state.memories[0].embedding);
    assert_eq!(copy.memories[0].conversation, "first");
    assert_eq!(copy.memories[0].times_read, 4);
}

#[test]
fn forgetting_removes_what_fades() {
    let now = 100 * DAY;
    let mut state = agent(vec![
        memory("fresh", "zero days", now, 0),
        memory("grace", "two days", now - 2 * DAY, 0),
        memory("young", "three days", now - 3 * DAY, 0),
        memory("edge", "eleven days", now - 11 * DAY, 0),
        memory("old", "twelve days", now - 12 * DAY, 0),
        memory("lasting", "fifty recalls", now - 30 * DAY, 50),
        memory("recalled", "forty-nine recalls", now - 30 * DAY, 49),
        memory("ancient", "hundred days", 0, 3),
    ]);
    state.send_message(String::from("Hello!"), now);
    let forgotten = monikai_memory_agent(&mut state, now);
    let kept: Vec<&str> = state.memories.iter().map(|memory| memory.conversation.as_str()).collect();
    assert_eq!(kept, vec!["zero days", "two days", "twelve days", "fifty recalls", "hundred days"]);
    let gone: Vec<&str> = forgotten.iter().map(|memory| memory.conversation.as_str()).collect();
    assert_eq!(gone, vec!["three days", "eleven days", "forty-nine recalls"]);
    assert_eq!(state.description, "You are Monikai.");
    assert_eq!(state.current_conversation.len(), 1);
    assert_eq!(state.last_spoken_to, now);
    assert_eq!(state.memories[3].times_read, 50);
    assert_eq!(state.memories[3].embedding.len(), 2);
}

#[test]
fn forgetting_among_no_memories() {
    let mut state = agent(vec![]);
    let forgotten = monikai_memory_agent(&mut state, 100 * DAY);
    assert!(forgotten.is_empty());
    assert!(state.memories.is_empty());
}

#[test]
fn forgetting_keeps_a_memory_of_today_whatever_its_recalls() {
    for times_read in [0usize, 1, 49, 50, 5000] {
        let mut state = agent(vec![memory("fresh", "today", 500 * DAY, times_read)]);
        let forgotten = monikai_memory_agent(&mut state, 500 * DAY + DAY - 1);
        assert!(forgotten.is_empty());
        assert_eq!(state.memories.len(), 1);
    }
}

#[test]
fn forgetting_keeps_a_memory_recalled_fifty_times_after_a_thousand_days() {
    let mut state = agent(vec![memory("lasting", "long ago", 0, 50)]);
    let forgotten = monikai_memory_agent(&mut state, 1000 * DAY);
    assert!(forgotten.is_empty());
    assert_eq!(state.memories.len(), 1);
    assert_eq!(state.memories[0].conversation, "long ago");
}

#[test]
fn forgetting_removes_a_memory_of_ten_days_without_recall() {
    let mut state = agent(vec![memory("faint", "ten days ago", 0, 0)]);
    let forgotten = monikai_memory_agent(&mut state, 10 * DAY);
    assert_eq!(forgotten.len(), 1);
    assert_eq!(forgotten[0].conversation, "ten days ago");
    assert!(state.memories.is_empty());
}

#[test]
fn autosave_closes_after_more_than_five_minutes() {
    let mut state = agent(vec![]);
    state.send_message(String::from("Hello!"), 1000);
    assert!(!monikai_autosave(&state, 1000));
    assert!(!monikai_autosave(&state, 1000 + 300));
    assert!(!monikai_autosave(&state, 1000 + 359));
    assert!(monikai_autosave(&state, 1000 + 360));
    assert!(monikai_autosave(&state, u64::MAX));
    assert!(!monikai_autosave(&state, 0));
}

#[test]
fn autosave_closes_nothing_without_conversation() {
    let state = agent(vec![memory("a", "first", 10, 4)]);
    assert!(!monikai_autosave(&state, 1000 + 360));
    assert!(!monikai_autosave(&state, u64::MAX));
}
