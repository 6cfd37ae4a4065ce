use message_bar::messagebar::MessageBar;
use message_bar::messagebar::Size;

#[test]
fn fresh_post_requests_redraw_and_shows_text() {
    let mut bar = MessageBar::new(0);
    bar.update_message("file saved", 0);
    assert!(bar.needs_redraw(0));
    assert_eq!(bar.draw(0), "file saved");
}

#[test]
fn expiry_window_boundaries() {
    let mut bar = MessageBar::new(0);
    bar.update_message("hi", 100);
    // A clock reading at or before the posting time: not expired.
    assert!(!bar.current_message.is_expired(0));
    assert!(!bar.current_message.is_expired(100));
    // Inside the window, including the 5-second boundary itself.
    assert!(!bar.current_message.is_expired(3100));
    assert!(!bar.current_message.is_expired(5100));
    // Strictly past the boundary.
    assert!(bar.current_message.is_expired(5101));
    assert!(bar.current_message.is_expired(u64::MAX));
}

#[test]
fn draw_of_expired_message_blanks_and_sets_flag() {
    let mut bar = MessageBar::new(0);
    bar.update_message("stale", 0);
    assert_eq!(bar.draw(6000), "");
    assert!(bar.clear_after_expiry);
}

#[test]
fn cleared_bar_requests_no_more_redraws() {
    let mut bar = MessageBar::new(0);
    bar.update_message("once", 0);
    bar.set_needs_redraw(false);
    let _ = bar.draw(6000);
    assert!(bar.clear_after_expiry);
    // However much further time passes, no redraw is owed.
    assert!(!bar.needs_redraw(6001));
    assert!(!bar.needs_redraw(1_000_000));
    assert!(!bar.needs_redraw(u64::MAX));
}

#[test]
fn saved_message_scenario() {
    let mut bar = MessageBar::new(0);
    bar.update_message("Saved.", 0);
    assert!(bar.needs_redraw(0));
    assert_eq!(bar.draw(0), "Saved.");
    bar.set_needs_redraw(false);
    // Posting set clear_after_expiry, so at three seconds neither the
    // explicit nor the implicit trigger fires.
    assert!(!bar.needs_redraw(3000));
}

#[test]
fn untouched_bar_blanks_exactly_once() {
    let mut bar = MessageBar::new(0);
    assert!(!bar.needs_redraw(0));
    assert!(!bar.needs_redraw(5000));
    // Six seconds in, the empty initial message has expired and the implicit
    // trigger fires once.
    assert!(bar.needs_redraw(6000));
    assert_eq!(bar.draw(6000), "");
    assert!(!bar.needs_redraw(6000));
    // A second draw is idempotent.
    assert_eq!(bar.draw(6500), "");
    assert!(!bar.needs_redraw(6500));
}

#[test]
fn set_needs_redraw_drives_the_explicit_flag() {
    let mut bar = MessageBar::new(0);
    bar.set_needs_redraw(true);
    assert!(bar.needs_redraw(0));
    bar.set_needs_redraw(false);
    assert!(!bar.needs_redraw(0));
}

#[test]
fn set_size_changes_nothing() {
    let mut bar = MessageBar::new(0);
    bar.update_message("steady", 0);
    bar.set_size(Size { height: 24, width: 80 });
    assert!(bar.needs_redraw(0));
    assert_eq!(bar.draw(0), "steady");
}

#[test]
fn posting_again_replaces_the_message() {
    let mut bar = MessageBar::new(0);
    bar.update_message("first", 0);
    let _ = bar.draw(6000);
    bar.set_needs_redraw(false);
    bar.update_message("second", 7000);
    assert!(bar.needs_redraw(7000));
    assert_eq!(bar.draw(7000), "second");
    // The fresh posting time governs the new expiry window.
    assert!(!bar.current_message.is_expired(12000));
    assert!(bar.current_message.is_expired(12001));
}

#[test]
fn empty_text_is_accepted_verbatim() {
    let mut bar = MessageBar::new(0);
    bar.update_message("", 0);
    assert!(bar.needs_redraw(0));
    assert_eq!(bar.draw(0), "");
}
