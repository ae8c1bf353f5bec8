use hax::animator::AnimationTask;
use hax::command::Command;
use hax::context::{ProcessContext, TickInfo};
use hax::dispatch::ConsoleOutcome;
use hax::entities::{EntityRecord, MemoryImage};
use hax::hooks::{HookInstallError, HookStateError, InterceptionPoint, PatchOutcome};

const CONSOLE_ADDR: u64 = 0x0045_0b90;
const SPAWN_ADDR: u64 = 0x004e_3810;

fn good_attach() -> ProcessContext {
    ProcessContext::attach(
        CONSOLE_ADDR,
        PatchOutcome::Patched { continuation: 0x1000 },
        SPAWN_ADDR,
        PatchOutcome::Patched { continuation: 0x2000 },
    )
    .expect("both patches are good")
}

#[test]
fn install_fails_on_unpatchable_sites() {
    let r = InterceptionPoint::install(CONSOLE_ADDR, PatchOutcome::Unpatchable);
    assert_eq!(r.unwrap_err(), HookInstallError { original_address: CONSOLE_ADDR });
    let r = InterceptionPoint::install(CONSOLE_ADDR, PatchOutcome::Patched { continuation: 0 });
    assert_eq!(r.unwrap_err(), HookInstallError { original_address: CONSOLE_ADDR });
}

#[test]
fn hook_lifecycle_is_ordered() {
    let mut p = InterceptionPoint::install(
        CONSOLE_ADDR,
        PatchOutcome::Patched { continuation: 0x1000 },
    )
    .unwrap();
    assert!(!p.is_enabled());
    // the continuation is valid only while the point is enabled
    assert_eq!(p.continuation(), Err(HookStateError::NotEnabled));
    assert_eq!(p.disable(), Err(HookStateError::NotEnabled));
    assert_eq!(p.enable(), Ok(()));
    assert_eq!(p.enable(), Err(HookStateError::AlreadyEnabled));
    assert_eq!(p.continuation(), Ok(0x1000));
    assert_eq!(p.disable(), Ok(()));
    assert_eq!(p.continuation(), Err(HookStateError::NotEnabled));
}

#[test]
fn attach_aborts_on_either_bad_patch() {
    let r = ProcessContext::attach(
        CONSOLE_ADDR,
        PatchOutcome::Unpatchable,
        SPAWN_ADDR,
        PatchOutcome::Patched { continuation: 0x2000 },
    );
    assert_eq!(r.err(), Some(HookInstallError { original_address: CONSOLE_ADDR }));
    let r = ProcessContext::attach(
        CONSOLE_ADDR,
        PatchOutcome::Patched { continuation: 0x1000 },
        SPAWN_ADDR,
        PatchOutcome::Unpatchable,
    );
    assert_eq!(r.err(), Some(HookInstallError { original_address: SPAWN_ADDR }));
}

#[test]
fn lifecycle_symmetry_attach_then_detach() {
    // attach enables both interception points …
    let mut ctx = good_attach();
    assert!(ctx.console_hook.is_enabled());
    assert!(ctx.spawn_hook.is_enabled());
    // … and detach disables both
    assert_eq!(ctx.detach(), Ok(()));
    assert!(!ctx.console_hook.is_enabled());
    assert!(!ctx.spawn_hook.is_enabled());
    // after detach no call-through executes replacement logic any more
    let out = ctx.on_console_write(&b"> /hax circle".to_vec());
    assert_eq!(out, ConsoleOutcome::Forward);
    assert!(!ctx.suppress_next);
    assert_eq!(ctx.on_spawn_item(&b"sword".to_vec()), None);
    // teardown happens exactly once
    assert_eq!(ctx.detach(), Err(HookStateError::NotEnabled));
}

#[test]
fn animation_phase_wraps_after_a_full_turn() {
    let mut t = AnimationTask::new(0x2000, 0, 0, 0);
    assert_eq!(t.phase, 0);
    assert!(!t.is_cancelled());
    for i in 0..360u32 {
        assert_eq!(t.tick(), i);
    }
    // a full turn later the phase is back at zero
    assert_eq!(t.tick(), 0);
    t.cancel();
    assert!(t.is_cancelled());
}

#[test]
fn quarter_turn_reaches_the_top_of_the_circle() {
    // origin (100.0, 50.0), radius 50.0, phase 90: one quarter turn
    let mut ctx = good_attach();
    let mut img = MemoryImage::new(0x2000);
    assert!(img.record_entity(
        0x2000,
        EntityRecord {
            extent: 5,
            x_bits: 100.0f32.to_bits(),
            y_bits: 50.0f32.to_bits(),
            next: 0x3000,
        },
    ));
    assert!(img.record_entity(0x3000, EntityRecord { extent: 0, x_bits: 0, y_bits: 0, next: 0 }));
    let idx = ctx.start_circle(&img, 50.0f32.to_bits(), 16).unwrap().unwrap();
    let mut last: Option<TickInfo> = None;
    for _ in 0..91 {
        last = ctx.tick_animation(idx);
    }
    // the 91st tick computes with angle 90
    let info = last.unwrap();
    assert_eq!(info.angle, 90);
    assert_eq!(info.target, 0x2000);
    // the driving loop computes the position exactly as the host sees it
    let origin_x = f32::from_bits(info.origin_x_bits);
    let origin_y = f32::from_bits(info.origin_y_bits);
    let radius = f32::from_bits(info.radius_bits);
    let rad = (info.angle as f32).to_radians();
    let x = origin_x + radius * rad.cos();
    let y = origin_y + radius * rad.sin();
    assert!((x - 100.0).abs() < 0.001);
    assert!((y - 100.0).abs() < 0.001);
}

#[test]
fn start_circle_binds_the_player_entity() {
    let mut ctx = good_attach();
    let mut img = MemoryImage::new(0x1000);
    assert!(img.record_entity(
        0x1000,
        EntityRecord { extent: 5, x_bits: 1, y_bits: 2, next: 0x2000 },
    ));
    assert!(img.record_entity(
        0x2000,
        EntityRecord { extent: 5, x_bits: 3, y_bits: 4, next: 0x3000 },
    ));
    assert!(img.record_entity(0x3000, EntityRecord { extent: 0, x_bits: 0, y_bits: 0, next: 0 }));
    assert_eq!(ctx.animation_count(), 0);
    let idx = ctx.start_circle(&img, 100.0f32.to_bits(), 16).unwrap();
    assert_eq!(idx, Some(0));
    assert_eq!(ctx.animation_count(), 1);
    // the task circles the player's current position
    let info = ctx.tick_animation(0).unwrap();
    assert_eq!(info.target, 0x2000);
    assert_eq!(info.origin_x_bits, 3);
    assert_eq!(info.origin_y_bits, 4);
    assert_eq!(info.angle, 0);
    let info = ctx.tick_animation(0).unwrap();
    assert_eq!(info.angle, 1);
}

#[test]
fn start_circle_without_a_player_starts_nothing() {
    let mut ctx = good_attach();
    let img = MemoryImage::new(0);
    assert_eq!(ctx.start_circle(&img, 0, 16), Ok(None));
    assert_eq!(ctx.animation_count(), 0);
}

#[test]
fn running_command_then_suppressed_echo() {
    let mut ctx = good_attach();
    let out = ctx.on_console_write(&b"> /hax circle".to_vec());
    assert_eq!(out, ConsoleOutcome::Run(Command::Circle));
    assert_eq!(ctx.on_console_write(&b"echoed reply".to_vec()), ConsoleOutcome::Suppressed);
}

#[test]
fn detach_cancels_every_animation_task() {
    let mut ctx = good_attach();
    let mut img = MemoryImage::new(0x1000);
    assert!(img.record_entity(
        0x1000,
        EntityRecord { extent: 7, x_bits: 0, y_bits: 0, next: 0x2000 },
    ));
    assert!(img.record_entity(0x2000, EntityRecord { extent: 0, x_bits: 0, y_bits: 0, next: 0 }));
    let idx = ctx.start_circle(&img, 0, 16).unwrap().unwrap();
    assert!(ctx.tick_animation(idx).is_some());
    assert_eq!(ctx.detach(), Ok(()));
    // a cancelled task ticks to nothing: the driving loop stops
    assert_eq!(ctx.tick_animation(idx), None);
    // and an index out of range ticks to nothing as well
    assert_eq!(ctx.tick_animation(99), None);
}
