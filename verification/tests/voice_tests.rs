use musicbot::messages::{ALREADY_PLAYING, BOT_NOT_IN_VOCIE, EMPTY_QUEUE, USER_NOT_IN_VOCIE};
use musicbot::voice::{
    announced_index, check, is_url_query, loop_change, plan_join, queued_description,
    should_leave, CheckFailure, JoinPlan, LoopChange, bot_alone, play_step, PlayAction,
};

#[test]
fn check_outcomes() {
    assert_eq!(check(None, Some(3), false), Err(CheckFailure::BotNotInVoice));
    assert_eq!(check(Some(Some(3)), None, false), Err(CheckFailure::UserNotInVoice));
    assert_eq!(check(Some(Some(3)), Some(4), false), Err(CheckFailure::AlreadyPlaying));
    assert_eq!(check(Some(Some(3)), Some(3), true), Err(CheckFailure::EmptyQueue));
    assert_eq!(check(Some(Some(3)), Some(3), false), Ok(()));
    assert_eq!(check(Some(None), None, false), Err(CheckFailure::UserNotInVoice));
}

#[test]
fn check_messages() {
    assert_eq!(CheckFailure::BotNotInVoice.message(), BOT_NOT_IN_VOCIE);
    assert_eq!(CheckFailure::UserNotInVoice.message(), USER_NOT_IN_VOCIE);
    assert_eq!(CheckFailure::AlreadyPlaying.message(), ALREADY_PLAYING);
    assert_eq!(CheckFailure::EmptyQueue.message(), EMPTY_QUEUE);
    assert_eq!(EMPTY_QUEUE, "The queue is empty :( \n use /play to add songs to queue");
}

#[test]
fn join_plans() {
    assert_eq!(plan_join(None, None), JoinPlan::NotInVoice);
    assert_eq!(plan_join(None, Some(Some(5))), JoinPlan::NotInVoice);
    assert_eq!(plan_join(Some(5), None), JoinPlan::Join(5));
    assert_eq!(plan_join(Some(5), Some(Some(5))), JoinPlan::UseCall(5));
    assert_eq!(plan_join(Some(5), Some(Some(6))), JoinPlan::Busy);
}

#[test]
fn link_queries() {
    assert!(is_url_query("https://youtu.be/x"));
    assert!(is_url_query("http"));
    assert!(!is_url_query("htt"));
    assert!(!is_url_query("never gonna give you up"));
    assert!(!is_url_query(" https://x"));
}

#[test]
fn announced_track() {
    assert_eq!(announced_index(1), 0);
    assert_eq!(announced_index(2), 1);
    assert_eq!(announced_index(9), 8);
}

#[test]
fn queued_text() {
    assert_eq!(
        queued_description("Title", "https://u", 42),
        format!("Queued [**{}**]({}) [{}]", "Title", "https://u", format!("<@{}>", 42))
    );
    assert_eq!(queued_description("", "", 0), "Queued [****]() [<@0>]");
}

#[test]
fn leaving() {
    assert!(should_leave(Some(1), true));
    assert!(!should_leave(Some(1), false));
    assert!(!should_leave(Some(2), true));
    assert!(!should_leave(Some(0), true));
    assert!(!should_leave(None, true));
}

#[test]
fn loop_toggle() {
    assert_eq!(loop_change(true), LoopChange::Disable);
    assert_eq!(loop_change(false), LoopChange::Enable);
    assert_eq!(LoopChange::Disable.message(), ":repeat:  Disabled loop :negative_squared_cross_mark:");
    assert_eq!(LoopChange::Enable.message(), ":repeat:  Enabled loop :white_check_mark:");
}

#[test]
fn play_steps() {
    assert_eq!(play_step("https://x", false, None), PlayAction::ReplyCouldNotJoin);
    assert_eq!(play_step("https://x", false, Some(true)), PlayAction::ReplyCouldNotJoin);
    assert_eq!(play_step("https://x", true, None), PlayAction::Load { link: true });
    assert_eq!(play_step("lofi beats", true, None), PlayAction::Load { link: false });
    assert_eq!(play_step("lofi beats", true, Some(false)), PlayAction::Stop);
    assert_eq!(play_step("lofi beats", true, Some(true)), PlayAction::Announce);
}

#[test]
fn alone_in_channel() {
    assert!(bot_alone(Some(1)));
    assert!(!bot_alone(Some(2)));
    assert!(!bot_alone(Some(0)));
    assert!(!bot_alone(None));
}
