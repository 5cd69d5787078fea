use libogl::cli::{log_level, parse_window_size, plan_launch, Backend, Launch, LogLevel, Mode};
use libogl::drawfunc::DrawFunc;
use libogl::error::OglError;

#[test]
fn window_sizes() {
    assert_eq!(parse_window_size("640x480"), Ok((640, 480)));
    assert_eq!(parse_window_size("800x800"), Ok((800, 800)));
    assert_eq!(parse_window_size("+640x480"), Ok((640, 480)));
    assert_eq!(parse_window_size("640"), Err(OglError::InvalidData));
    assert_eq!(parse_window_size("640x"), Err(OglError::InvalidData));
    assert_eq!(parse_window_size("x480"), Err(OglError::InvalidData));
    assert_eq!(parse_window_size("640x480x2"), Err(OglError::InvalidData));
    assert_eq!(parse_window_size("64ax480"), Err(OglError::InvalidData));
    assert_eq!(parse_window_size("0x480"), Err(OglError::InvalidData));
    assert_eq!(parse_window_size("-640x480"), Err(OglError::InvalidData));
    assert_eq!(parse_window_size("9999999999x480"), Err(OglError::InvalidData));
    assert_eq!(parse_window_size(" 640x480"), Err(OglError::InvalidData));
    assert_eq!(parse_window_size("2147483647x1"), Ok((i32::MAX, 1)));
}

#[test]
fn sdl_run_of_first_demo() {
    assert_eq!(
        plan_launch("640x480", 1, Mode::Sdl),
        Ok(Launch::Run { width: 640, height: 480, demo: DrawFunc::DrawVbo, backend: Backend::Sdl })
    );
    assert_eq!(
        plan_launch("800x800", 21, Mode::Wayland),
        Ok(Launch::Run {
            width: 800,
            height: 800,
            demo: DrawFunc::DrawTextureMipMapping,
            backend: Backend::Wayland
        })
    );
}

#[test]
fn out_of_range_demo_fails() {
    assert_eq!(plan_launch("640x480", 999, Mode::Sdl), Err(OglError::InvalidData));
    assert_eq!(plan_launch("640x480", 0, Mode::Wayland), Err(OglError::InvalidData));
}

#[test]
fn listing_needs_no_valid_demo() {
    assert_eq!(plan_launch("800x800", 999, Mode::ListFunc), Ok(Launch::ListFunctions));
    assert_eq!(plan_launch("800", 1, Mode::ListFunc), Err(OglError::InvalidData));
}

#[test]
fn verbosity_levels() {
    assert_eq!(log_level(0), LogLevel::Info);
    assert_eq!(log_level(1), LogLevel::Debug);
    assert_eq!(log_level(2), LogLevel::Trace);
    assert_eq!(log_level(3), LogLevel::Info);
}
