use vc_thread::channel::UNKNOWN_VC_NAME;
use vc_thread::finalize::{decide_finalize, participants, BOT_OPENING_POSTS, RECENT_WINDOW};
use vc_thread::rename::{
    find_rename_text, rename_gate, InteractionKind, TextField, RENAME_BUTTON_ID, RENAME_MODAL_ID,
    RENAME_TEXT_ID,
};
use vc_thread::{
    button_pressed, display_name, join_notice_needed, rename_vc, route_interaction, AppConfig,
    ChannelInfo, ChannelKind, Finalize, Handler, JoinPlan, RenameCommit, RenameGate, Route,
};

const CATEGORY: u64 = 100;
const ANNOUNCE: u64 = 200;
const IGNORED: u64 = 300;
const BOT: u64 = 9;
const MANAGE: u64 = 1 << 4;

fn config() -> AppConfig {
    AppConfig { vc_category: CATEGORY, vc_ignored_channels: vec![IGNORED], thread_channel: ANNOUNCE }
}

fn voice(id: u64) -> ChannelInfo {
    ChannelInfo { id, kind: ChannelKind::Voice, parent_id: Some(CATEGORY) }
}

fn field(id: &str, value: &str) -> TextField {
    TextField { custom_id: id.to_string(), value: value.to_string() }
}

#[test]
fn classifier_accepts_voice_channel_in_category() {
    let h = Handler::new(config());
    assert!(h.is_custom_vc(&voice(1)));
}

#[test]
fn classifier_rejects_other_channels() {
    let h = Handler::new(config());
    let text = ChannelInfo { id: 1, kind: ChannelKind::Other, parent_id: Some(CATEGORY) };
    let elsewhere = ChannelInfo { id: 1, kind: ChannelKind::Voice, parent_id: Some(CATEGORY + 1) };
    let no_parent = ChannelInfo { id: 1, kind: ChannelKind::Voice, parent_id: None };
    assert!(!h.is_custom_vc(&text));
    assert!(!h.is_custom_vc(&elsewhere));
    assert!(!h.is_custom_vc(&no_parent));
    assert!(!h.is_custom_vc(&voice(IGNORED)));
}

#[test]
fn unmanaged_channel_never_gets_a_session() {
    let mut h = Handler::new(config());
    let ignored = voice(IGNORED);
    assert_eq!(h.voice_state_update(&ignored), JoinPlan::Ignore);
    assert!(!h.register_thread(&ignored, 10, 20));
    assert_eq!(h.voice_state_update(&ignored), JoinPlan::Ignore);
    assert_eq!(h.channel_update(&ignored), None);
    assert_eq!(h.channel_delete(&ignored), None);
    assert_eq!(h.get_vc(10), None);
}

#[test]
fn second_join_does_not_open_second_thread() {
    let mut h = Handler::new(config());
    let v = voice(1);
    assert!(h.register_thread(&v, 10, 20));
    assert_eq!(h.voice_state_update(&v), JoinPlan::JoinNotice { thread: 10 });
    assert!(!h.register_thread(&v, 11, 21));
    assert_eq!(h.voice_state_update(&v), JoinPlan::JoinNotice { thread: 10 });
    assert_eq!(h.get_vc(11), None);
}

#[test]
fn join_notice_only_for_new_members() {
    assert!(join_notice_needed(&vec![5, BOT], 6));
    assert!(!join_notice_needed(&vec![5, BOT], 5));
    assert!(join_notice_needed(&vec![], 5));
}

#[test]
fn binding_reads_both_ways() {
    let mut h = Handler::new(config());
    assert!(h.register_thread(&voice(1), 10, 20));
    assert!(h.register_thread(&voice(2), 11, 21));
    assert_eq!(h.rename_thread(1), Some(10));
    assert_eq!(h.get_vc(10), Some(1));
    assert_eq!(h.rename_thread(2), Some(11));
    assert_eq!(h.get_vc(11), Some(2));
}

#[test]
fn thread_already_bound_is_refused() {
    let mut h = Handler::new(config());
    assert!(h.register_thread(&voice(1), 10, 20));
    assert!(!h.register_thread(&voice(2), 10, 22));
    assert_eq!(h.rename_thread(2), None);
    assert_eq!(h.get_vc(10), Some(1));
}

#[test]
fn quiet_window_of_two_deletes_thread() {
    let r = decide_finalize(Some(20), &vec![true, true]);
    assert_eq!(r, Finalize::Discard { agenda: 20, delete_thread: true });
    assert!(r.should_delete_thread());
    assert!(decide_finalize(Some(20), &vec![]).should_delete_thread());
}

#[test]
fn quiet_window_of_three_archives_thread() {
    let r = decide_finalize(Some(20), &vec![true, true, true]);
    assert_eq!(r, Finalize::Discard { agenda: 20, delete_thread: false });
    assert!(!r.should_delete_thread());
}

#[test]
fn human_message_never_deletes_thread() {
    assert_eq!(decide_finalize(Some(20), &vec![false]), Finalize::Summarize { agenda: 20 });
    assert_eq!(
        decide_finalize(Some(20), &vec![true, false, true, true, true]),
        Finalize::Summarize { agenda: 20 }
    );
    assert!(!decide_finalize(Some(20), &vec![true, false]).should_delete_thread());
}

#[test]
fn unregistered_thread_is_left_alone() {
    let r = decide_finalize(None, &vec![true]);
    assert_eq!(r, Finalize::Unregistered);
    assert!(!r.should_delete_thread());
}

#[test]
fn window_constants() {
    assert_eq!(RECENT_WINDOW, 5);
    assert_eq!(BOT_OPENING_POSTS, 2);
}

#[test]
fn participants_leave_out_the_bot() {
    assert_eq!(participants(&vec![5, BOT, 6, BOT], BOT), vec![5, 6]);
    assert_eq!(participants(&vec![], BOT), Vec::<u64>::new());
}

#[test]
fn summary_needs_bot_identity() {
    let mut h = Handler::new(config());
    assert_eq!(h.bot_user_id(), None);
    assert_eq!(h.summary_participants(&vec![5, BOT]), None);
    h.ready(BOT);
    assert_eq!(h.bot_user_id(), Some(BOT));
    assert_eq!(h.summary_participants(&vec![5, BOT, 6]), Some(vec![5, 6]));
}

#[test]
fn permission_gate_reads_manage_channels_bit() {
    assert_eq!(rename_gate(true, Some(MANAGE)), RenameGate::Allowed);
    assert_eq!(rename_gate(true, Some(MANAGE | 1 | 8)), RenameGate::Allowed);
    assert_eq!(rename_gate(true, Some(8)), RenameGate::OwnerOnly);
    assert_eq!(rename_gate(true, Some(0)), RenameGate::OwnerOnly);
    assert_eq!(rename_gate(true, None), RenameGate::OwnerOnly);
    assert_eq!(rename_gate(false, Some(MANAGE)), RenameGate::Dissolved);
}

#[test]
fn button_opens_dialog_only_for_managers() {
    assert_eq!(button_pressed(true, Some(MANAGE)), RenameGate::Allowed);
    assert_eq!(button_pressed(true, Some(1)), RenameGate::OwnerOnly);
    assert_eq!(button_pressed(false, None), RenameGate::Dissolved);
}

#[test]
fn commit_rechecks_permission() {
    let fields = vec![field(RENAME_TEXT_ID, "karaoke")];
    assert_eq!(button_pressed(true, Some(MANAGE)), RenameGate::Allowed);
    assert!(matches!(rename_vc(true, Some(8), &fields), RenameCommit::OwnerOnly));
    assert!(matches!(rename_vc(true, None, &fields), RenameCommit::OwnerOnly));
    assert!(matches!(rename_vc(false, Some(MANAGE), &fields), RenameCommit::Dissolved));
}

#[test]
fn commit_takes_rename_field() {
    let fields = vec![field("other", "x"), field(RENAME_TEXT_ID, "karaoke"), field(RENAME_TEXT_ID, "y")];
    match rename_vc(true, Some(MANAGE), &fields) {
        RenameCommit::Rename { name } => assert_eq!(name, "karaoke"),
        other => panic!("unexpected {:?}", other),
    }
    assert!(matches!(
        rename_vc(true, Some(MANAGE), &vec![field("other", "x")]),
        RenameCommit::MissingField
    ));
    assert_eq!(find_rename_text(&vec![]), None);
}

#[test]
fn interactions_are_routed_by_identifier() {
    let button = RENAME_BUTTON_ID.to_string();
    let modal = RENAME_MODAL_ID.to_string();
    assert_eq!(route_interaction(InteractionKind::MessageComponent, &button), Route::RenameButton);
    assert_eq!(route_interaction(InteractionKind::ModalSubmit, &modal), Route::RenameModal);
    assert_eq!(route_interaction(InteractionKind::ModalSubmit, &button), Route::Ignore);
    assert_eq!(route_interaction(InteractionKind::MessageComponent, &modal), Route::Ignore);
    assert_eq!(route_interaction(InteractionKind::Other, &button), Route::Ignore);
    assert_eq!(button, "rename_button");
    assert_eq!(modal, "rename_title");
}

#[test]
fn channel_name_falls_back() {
    assert_eq!(display_name(Some("games".to_string())), "games");
    assert_eq!(display_name(None), UNKNOWN_VC_NAME);
    assert_eq!(UNKNOWN_VC_NAME, "不明なVC");
}

#[test]
fn session_lifecycle_scenarios() {
    let mut h = Handler::new(config());
    h.ready(BOT);
    let v = voice(1);
    // A joins a new channel: a session is opened and recorded.
    assert_eq!(h.voice_state_update(&v), JoinPlan::NewSession { announcement_channel: ANNOUNCE });
    assert!(h.register_thread(&v, 10, 20));
    assert_eq!(h.get_vc(10), Some(1));
    // B joins after A: no new thread, a join notice for B only.
    assert_eq!(h.voice_state_update(&v), JoinPlan::JoinNotice { thread: 10 });
    assert!(join_notice_needed(&vec![BOT, 5], 6));
    assert!(!join_notice_needed(&vec![BOT, 5, 6], 5));
    // The channel is renamed: its thread follows, the binding stays.
    assert_eq!(h.channel_update(&v), Some(10));
    assert_eq!(h.get_vc(10), Some(1));
    // The channel is deleted with only the bot's two posts in the thread.
    assert_eq!(h.channel_delete(&v), Some((10, 20)));
    let r = decide_finalize(Some(20), &vec![true, true]);
    assert_eq!(r, Finalize::Discard { agenda: 20, delete_thread: true });
    assert!(r.should_delete_thread());
    assert_eq!(h.get_vc(10), None);
    assert_eq!(h.rename_thread(1), None);
    assert_eq!(h.finalize_agenda_message(10, &vec![true, true]), Finalize::Unregistered);
    assert_eq!(h.channel_delete(&v), None);
}

#[test]
fn session_with_human_message_is_archived() {
    let mut h = Handler::new(config());
    h.ready(BOT);
    let v = voice(2);
    assert!(h.register_thread(&v, 11, 21));
    assert_eq!(h.channel_delete(&v), Some((11, 21)));
    let r = decide_finalize(Some(21), &vec![true, false, true]);
    assert_eq!(r, Finalize::Summarize { agenda: 21 });
    assert!(!r.should_delete_thread());
    assert_eq!(h.summary_participants(&vec![BOT, 5]), Some(vec![5]));
    // A new session may reuse the channel once the old one is retired.
    assert_eq!(h.voice_state_update(&v), JoinPlan::NewSession { announcement_channel: ANNOUNCE });
}

#[test]
fn finalize_retires_bound_thread() {
    let mut h = Handler::new(config());
    assert!(h.register_thread(&voice(1), 10, 20));
    assert!(h.register_thread(&voice(2), 11, 21));
    assert_eq!(
        h.finalize_agenda_message(10, &vec![true, true]),
        Finalize::Discard { agenda: 20, delete_thread: true }
    );
    assert_eq!(h.get_vc(10), None);
    assert_eq!(h.rename_thread(1), None);
    assert_eq!(h.channel_delete(&voice(1)), None);
    assert_eq!(h.finalize_agenda_message(10, &vec![true]), Finalize::Unregistered);
    assert_eq!(h.get_vc(11), Some(2));
}

#[test]
fn finalize_bound_thread_by_window() {
    let mut h = Handler::new(config());
    assert!(h.register_thread(&voice(1), 10, 20));
    assert!(h.register_thread(&voice(2), 11, 21));
    assert!(h.register_thread(&voice(3), 12, 22));
    assert_eq!(
        h.finalize_agenda_message(10, &vec![true, true, true]),
        Finalize::Discard { agenda: 20, delete_thread: false }
    );
    assert_eq!(h.finalize_agenda_message(11, &vec![false, true]), Finalize::Summarize { agenda: 21 });
    assert!(h.finalize_agenda_message(12, &vec![true]).should_delete_thread());
}

#[test]
fn deleting_one_channel_keeps_the_others() {
    let mut h = Handler::new(config());
    assert!(h.register_thread(&voice(1), 10, 20));
    assert!(h.register_thread(&voice(2), 11, 21));
    assert_eq!(h.channel_delete(&voice(1)), Some((10, 20)));
    assert_eq!(h.get_vc(11), Some(2));
    assert_eq!(h.rename_thread(2), Some(11));
    assert_eq!(h.channel_delete(&voice(2)), Some((11, 21)));
    // The channel can be given a fresh session after its old one is gone.
    assert!(h.register_thread(&voice(1), 12, 22));
    assert_eq!(h.get_vc(12), Some(1));
}
