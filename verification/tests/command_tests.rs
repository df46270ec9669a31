use winnbot::auto::notify::{list_rank, roll_notice, watch_list};
use winnbot::bot::{extra_prefixes, is_watched_roll};
use winnbot::commands::archive::{archive_access, insert_statement, ArchiveAccess};
use winnbot::commands::clear::{clear_amount, clear_help, clear_reply, deletes_command_message};
use winnbot::commands::count::{count_help, count_report, HistoryCounter};
use winnbot::commands::echo::{echo_confirmation, echo_help};
use winnbot::commands::fractal::fractal_help;
use winnbot::commands::help::{help_footer, help_query};
use winnbot::commands::prompt::{bearer, chat_reply_text, image_reply_url, imageprompt_help, prompt_help};

#[test]
fn help_texts() {
    assert_eq!(clear_help(), "Clear messages from a channel. Example usage: /clear 5");
    assert_eq!(count_help(), "Count the number of messages in a channel");
    assert_eq!(echo_help(), "Echo a message to the channel. Example usage: /echo Hello, world!");
    assert_eq!(fractal_help(), "Generates a fractal image with the given parameters");
    assert_eq!(prompt_help(), "Prompt OpenAI GPT-4 Turbo to generate a response");
    assert_eq!(imageprompt_help(), "Prompt OpenAI DALL-E 3 to generate an image");
    assert!(help_footer().ends_with("Source on GitHub: https://github.com/varunkamath/winnbot"));
}

#[test]
fn clear_defaults_to_one() {
    assert_eq!(clear_amount(None), 1);
    assert_eq!(clear_amount(Some(5)), 5);
    assert_eq!(clear_reply(5), "5 messages deleted");
    assert!(deletes_command_message("!"));
    assert!(!deletes_command_message("/"));
}

#[test]
fn counting_pages() {
    let mut c = HistoryCounter::new();
    assert_eq!(c.on_page(&vec![30, 20, 10]), Some(10));
    assert_eq!(c.on_page(&vec![9, 8]), Some(8));
    assert_eq!(c.on_page(&vec![]), None);
    assert_eq!(c.count, 5);
    assert_eq!(count_report(5, 2), "Counted 5 messages in this channel. Time elapsed: 2 seconds");
}

#[test]
fn archive_is_for_the_owner() {
    assert_eq!(archive_access(None, 7), ArchiveAccess::NotConfigured);
    assert_eq!(archive_access(Some("7"), 7), ArchiveAccess::Allowed);
    assert_eq!(archive_access(Some("8"), 7), ArchiveAccess::Refused);
    assert!(insert_statement().contains("VALUES (?1, ?2, ?3, ?4, ?5)"));
}

#[test]
fn echo_confirmation_quotes() {
    assert_eq!(echo_confirmation("hi"), "Message echoed: \"hi\"");
}

#[test]
fn help_query_adds_the_invoked_name() {
    assert_eq!(help_query("help", Some("clear".to_string())), Some("clear".to_string()));
    assert_eq!(help_query("help", None), None);
    assert_eq!(help_query("echo", Some("x".to_string())), Some("echo x".to_string()));
    assert_eq!(help_query("echo", None), Some("echo".to_string()));
}

#[test]
fn prompt_answers() {
    assert_eq!(bearer("k"), "Bearer k");
    assert_eq!(chat_reply_text(Some("hi".to_string())), "hi");
    assert_eq!(chat_reply_text(None), "No response from GPT-4 Turbo");
    assert_eq!(image_reply_url(None), "No response from DALL-E 3");
}

#[test]
fn notices_for_listed_names() {
    let list = watch_list("Alice\nBob\nBob\n");
    assert_eq!(list, vec!["Alice", "Bob", "Bob"]);
    assert_eq!(list_rank(&list, "Bob"), Some(2));
    assert_eq!(list_rank(&list, "Carol"), None);
    assert_eq!(
        roll_notice(&list, "Bob", 3, 2, Some(1)),
        Some("Bob is rank 2 on the list\n[Message](https://discord.com/channels/1/2/3)".to_string())
    );
    assert_eq!(
        roll_notice(&list, "Alice", 30, 20, None),
        Some("Alice is rank 1 on the list\n[Message](https://discord.com/channels/@me/20/30)".to_string())
    );
    assert_eq!(roll_notice(&list, "Carol", 3, 2, None), None);
}

#[test]
fn rolls_of_the_watched_bot() {
    assert!(is_watched_roll(5, 5));
    assert!(!is_watched_roll(5, 6));
    assert_eq!(extra_prefixes().len(), 4);
}
