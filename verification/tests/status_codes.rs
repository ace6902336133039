use bot_supervisor::status::BotStatus;

#[test]
fn status_codes_are_stable() {
    assert_eq!(BotStatus::Unset.as_uint32(), 0);
    assert_eq!(BotStatus::Running.as_uint32(), 1);
    assert_eq!(BotStatus::Stopped.as_uint32(), 2);
    assert_eq!(BotStatus::Paused.as_uint32(), 3);
}
