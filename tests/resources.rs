use libogl::error::OglError;
use libogl::matrix::cell_index;
use libogl::program::{build_succeeded, found_location, required_location, ProgramState};

#[test]
fn matrix_cells() {
    assert!(cell_index(3, 4).is_err());
    assert_eq!(cell_index(4, 0), Err(OglError::InvalidData));
    assert_eq!(cell_index(0, 0), Ok(0));
    assert_eq!(cell_index(1, 1), Ok(5));
    assert_eq!(cell_index(2, 3), Ok(11));
    assert_eq!(cell_index(3, 3), Ok(15));
    for r in 0..4 {
        for c in 0..4 {
            assert!(cell_index(r, c).is_ok());
        }
    }
}

#[test]
fn program_sources_are_reused() {
    let mut p = ProgramState::new();
    assert_eq!(p.program(), None);
    assert_eq!(p.require_program(), Err(OglError::InvalidData));
    p.select_sources(Some("vs one"), Some("fs one"));
    assert_eq!((p.vertex_source(), p.fragment_source()), ("vs one", "fs one"));
    p.select_sources(None, Some("fs two"));
    assert_eq!((p.vertex_source(), p.fragment_source()), ("vs one", "fs two"));
    p.install(3);
    p.install(4);
    assert_eq!(p.require_program(), Ok(4));
}

#[test]
fn locations_and_status() {
    assert_eq!(found_location(-1), None);
    assert_eq!(found_location(0), Some(0));
    assert_eq!(found_location(12), Some(12));
    assert_eq!(required_location(None), Err(OglError::Unexpected));
    assert_eq!(required_location(Some(2)), Ok(2));
    assert!(!build_succeeded(0));
    assert!(build_succeeded(1));
}

#[test]
fn error_messages() {
    assert_eq!(OglError::GlError.message(), "Opengl error");
    assert_eq!(OglError::InvalidData.message(), "Invalid error");
    assert_eq!(OglError::SDLError.message(), "SDL error");
}
