use scouter::models::{PopulatedScheduleBlock, User, Window};
use scouter::notify::{next_match_message, ping_str};

fn user(first: &str, last: &str, discord: &str) -> User {
    User {
        id: discord.to_string(),
        username: first.to_string(),
        first_name: first.to_string(),
        last_name: last.to_string(),
        discord_id: discord.to_string(),
    }
}

fn block(slots: [Option<User>; 6]) -> PopulatedScheduleBlock {
    let [blue1, blue2, blue3, red1, red2, red3] = slots;
    PopulatedScheduleBlock {
        id: "b".to_string(),
        window: Window::Matches {
            start_match: 20,
            last_match: 24,
        },
        blue1,
        blue2,
        blue3,
        red1,
        red2,
        red3,
        min_30: false,
        min_10: false,
    }
}

#[test]
fn ping_str_wraps_the_identifier() {
    assert_eq!(ping_str("123"), "<@123>");
    assert_eq!(ping_str(""), "<@>");
}

#[test]
fn pings_follow_fixed_role_order() {
    // Only blue 2 and red 1 are filled: their tokens appear in the
    // fixed role order, nothing else contributes.
    let b = block([
        None,
        Some(user("B", "Two", "22")),
        None,
        Some(user("R", "One", "91")),
        None,
        None,
    ]);
    assert_eq!(b.pings(), "<@22><@91>");
}

#[test]
fn pings_order_is_independent_of_which_slots_are_filled() {
    let full = block([
        Some(user("A", "A", "1")),
        Some(user("B", "B", "2")),
        Some(user("C", "C", "3")),
        Some(user("D", "D", "4")),
        Some(user("E", "E", "5")),
        Some(user("F", "F", "6")),
    ]);
    assert_eq!(full.pings(), "<@1><@2><@3><@4><@5><@6>");
}

#[test]
fn pings_of_empty_block_is_empty() {
    let b = block([None, None, None, None, None, None]);
    assert_eq!(b.pings(), "");
}

#[test]
fn embed_fields_follow_fixed_role_order() {
    let b = block([
        Some(user("Ada", "Lovelace", "1")),
        None,
        None,
        None,
        None,
        Some(user("Alan", "Turing", "6")),
    ]);
    let fields = b.embed_fields();
    assert_eq!(fields.len(), 6);
    assert_eq!(fields[0].name, "Ada Lovelace");
    assert_eq!(fields[0].value, "You are scouting blue 1");
    assert_eq!(fields[1].name, "No One \u{1f614}");
    assert_eq!(fields[1].value, "Is scouting blue 2");
    assert_eq!(fields[2].value, "Is scouting blue 3");
    assert_eq!(fields[3].value, "Is scouting red 1");
    assert_eq!(fields[4].value, "Is scouting red 2");
    assert_eq!(fields[5].name, "Alan Turing");
    assert_eq!(fields[5].value, "You are scouting red 3");
}

#[test]
fn title_quotes_the_match_window_and_label() {
    let b = block([None, None, None, None, None, None]);
    assert_eq!(b.title("3 matches"), "Scouters for match 20 - 24, in 3 matches");
    assert_eq!(b.title("1 match!"), "Scouters for match 20 - 24, in 1 match!");
}

#[test]
fn title_quotes_the_time_window_on_the_local_clock() {
    let offset: i64 = 4 * 60 * 60 * 1000;
    let b = PopulatedScheduleBlock {
        window: Window::Time {
            start_time: offset + 1_000,
            end_time: offset + 2_000,
        },
        ..block([None, None, None, None, None, None])
    };
    assert_eq!(b.title("10 minutes"), "Scouters from 1000 - 2000, in 10 minutes");
}

#[test]
fn next_match_message_is_one_past_latest() {
    assert_eq!(next_match_message(12), "The next match is: 13");
    assert_eq!(next_match_message(0), "The next match is: 1");
}
