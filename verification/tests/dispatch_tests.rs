use hax::command::{parse_command, tokenize, Command};
use hax::context::ProcessContext;
use hax::dispatch::{console_result, usage_message, usage_reply_wide, ConsoleOutcome, TextColor};
use hax::hooks::PatchOutcome;

fn attached_context() -> ProcessContext {
    ProcessContext::attach(
        0x0045_0b90,
        PatchOutcome::Patched { continuation: 0x1000 },
        0x004e_3810,
        PatchOutcome::Patched { continuation: 0x2000 },
    )
    .expect("both patches are good")
}

#[test]
fn tokenize_splits_on_ascii_whitespace() {
    let toks = tokenize(&b" dump   entities ".to_vec());
    assert_eq!(toks, vec![b"dump".to_vec(), b"entities".to_vec()]);
}

#[test]
fn tokenize_empty_and_blank() {
    assert_eq!(tokenize(&b"".to_vec()), Vec::<Vec<u8>>::new());
    assert_eq!(tokenize(&b" \t\r\n".to_vec()), Vec::<Vec<u8>>::new());
}

#[test]
fn parse_recognizes_circle() {
    assert_eq!(parse_command(&b" circle".to_vec()), Ok(Command::Circle));
}

#[test]
fn parse_recognizes_dump_entities() {
    assert_eq!(parse_command(&b" dump entities".to_vec()), Ok(Command::DumpEntities));
    assert_eq!(parse_command(&b"  dump \t entities ".to_vec()), Ok(Command::DumpEntities));
}

#[test]
fn parse_rejects_everything_else() {
    assert!(parse_command(&b"".to_vec()).is_err());
    assert!(parse_command(&b" ".to_vec()).is_err());
    assert!(parse_command(&b" circles".to_vec()).is_err());
    assert!(parse_command(&b" dump".to_vec()).is_err());
    assert!(parse_command(&b" dump entities now".to_vec()).is_err());
    assert!(parse_command(&b" CIRCLE".to_vec()).is_err());
}

#[test]
fn ordinary_text_passes_through_untouched() {
    let mut ctx = attached_context();
    let out = ctx.on_console_write(&b"You found a sword".to_vec());
    assert_eq!(out, ConsoleOutcome::Forward);
    assert!(!ctx.suppress_next);
    // the host receives exactly what the original function returned
    assert_eq!(console_result(&out, 0), 0);
    assert_eq!(console_result(&out, 1), 1);
}

#[test]
fn unrecognized_command_replies_with_usage() {
    let mut ctx = attached_context();
    let out = ctx.on_console_write(&b"> /hax frobnicate".to_vec());
    assert_eq!(out, ConsoleOutcome::Usage);
    assert!(ctx.suppress_next);
    assert!(!usage_message().is_empty());
    assert_eq!(usage_message(), b"usage: /hax circle | dump entities".to_vec());
    // the call is consumed, not forwarded
    assert_eq!(console_result(&out, 0), 1);
}

#[test]
fn empty_command_line_replies_with_usage() {
    let mut ctx = attached_context();
    let out = ctx.on_console_write(&b"> /hax".to_vec());
    assert_eq!(out, ConsoleOutcome::Usage);
}

#[test]
fn recognized_commands_dispatch() {
    let mut ctx = attached_context();
    assert_eq!(
        ctx.on_console_write(&b"> /hax circle".to_vec()),
        ConsoleOutcome::Run(Command::Circle)
    );
    // the reply set the flag; clear it by one suppressed call
    assert_eq!(ctx.on_console_write(&b"anything".to_vec()), ConsoleOutcome::Suppressed);
    assert_eq!(
        ctx.on_console_write(&b"> /hax dump entities".to_vec()),
        ConsoleOutcome::Run(Command::DumpEntities)
    );
}

#[test]
fn suppression_swallows_exactly_one_call() {
    let mut ctx = attached_context();
    let out = ctx.on_console_write(&b"> /hax dump entities".to_vec());
    assert_eq!(out, ConsoleOutcome::Run(Command::DumpEntities));
    assert!(ctx.suppress_next);
    // the immediately following call-through is suppressed, whatever it is
    let out = ctx.on_console_write(&b"> /hax circle".to_vec());
    assert_eq!(out, ConsoleOutcome::Suppressed);
    assert!(!ctx.suppress_next);
    // and the one after that behaves normally again
    let out = ctx.on_console_write(&b"plain chatter".to_vec());
    assert_eq!(out, ConsoleOutcome::Forward);
    assert!(!ctx.suppress_next);
}

#[test]
fn prefix_must_match_exactly() {
    let mut ctx = attached_context();
    assert_eq!(ctx.on_console_write(&b"> /ha".to_vec()), ConsoleOutcome::Forward);
    assert_eq!(ctx.on_console_write(&b">/hax circle".to_vec()), ConsoleOutcome::Forward);
    assert_eq!(ctx.on_console_write(&b" > /hax circle".to_vec()), ConsoleOutcome::Forward);
    assert_eq!(ctx.on_console_write(&b"".to_vec()), ConsoleOutcome::Forward);
    assert!(!ctx.suppress_next);
}

#[test]
fn wide_messages_decode_before_dispatch() {
    let mut ctx = attached_context();
    let units = widestring::U16String::from_str("> /hax circle").into_vec();
    assert_eq!(ctx.on_console_write_wide(&units), ConsoleOutcome::Run(Command::Circle));
    let mut ctx = attached_context();
    let units = widestring::U16String::from_str("hello world").into_vec();
    assert_eq!(ctx.on_console_write_wide(&units), ConsoleOutcome::Forward);
}

#[test]
fn usage_reply_round_trips_through_wide_encoding() {
    let wide = usage_reply_wide();
    assert!(!wide.is_empty());
    let back = String::from_utf16(&wide).expect("the usage reply is valid UTF-16");
    assert_eq!(back, "usage: /hax circle | dump entities");
}

#[test]
fn spawn_hook_observes_and_forwards() {
    let ctx = attached_context();
    let obs = ctx.on_spawn_item(&b"rusty_sword".to_vec());
    assert_eq!(obs, Some(b"rusty_sword".to_vec()));
}

#[test]
fn text_colors_carry_the_host_codes() {
    assert_eq!(TextColor::Black.code(), 1);
    assert_eq!(TextColor::White.code(), 3);
    assert_eq!(TextColor::LightRed.code(), 7);
    assert_eq!(TextColor::LightYellow.code(), 16);
}
