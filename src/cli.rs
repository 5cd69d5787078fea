use vstd::prelude::*;
use vstd::string::*;
use crate::drawfunc::{demo_at, DrawFunc};
use crate::error::OglError;

verus! {

/// Table index of the demo run when none is chosen.
pub const DEFAULT_DEMO_INDEX: usize = 21;

/// Value of a non-empty run of decimal digits.
pub open spec fn digits_value(s: Seq<char>) -> int
    decreases s.len(),
{
    if s.len() == 0 {
        0
    } else {
        digits_value(s.drop_last()) * 10 + (s.last() as u32 - '0' as u32)
    }
}

/// Whether `s` is one or more ASCII decimal digits.
pub open spec fn all_digits(s: Seq<char>) -> bool {
    s.len() > 0 && forall|i: int| 0 <= i < s.len() ==> '0' <= #[trigger] s[i] <= '9'
}

/// The `i32` that `s` writes: an optional `+` or `-` and then only decimal digits, with a
/// value inside the range of `i32`.
pub open spec fn parsed_i32(s: Seq<char>) -> Option<i32> {
    let signed = s.len() > 0 && (s[0] == '-' || s[0] == '+');
    let body = if signed {
        s.drop_first()
    } else {
        s
    };
    let v = if signed && s[0] == '-' {
        -digits_value(body)
    } else {
        digits_value(body)
    };
    if all_digits(body) && i32::MIN <= v <= i32::MAX {
        Some(v as i32)
    } else {
        None
    }
}

/// Relies on `str::parse::<i32>`, which accepts exactly an optional sign followed by
/// decimal digits whose value fits `i32`.
#[verifier::external_body]
fn parse_i32(s: &str) -> (r: Option<i32>)
    ensures
        r == parsed_i32(s@),
{
    s.parse::<i32>().ok()
}

/// Index of the first `x` in `s`, if there is one.
pub open spec fn first_x(s: Seq<char>) -> Option<int> {
    if exists|i: int| 0 <= i < s.len() && s[i] == 'x' {
        Some(
            choose|i: int|
                0 <= i < s.len() && s[i] == 'x' && forall|j: int| 0 <= j < i ==> s[j] != 'x',
        )
    } else {
        None
    }
}

/// The window size that a `WIDTHxHEIGHT` argument gives: two positive integers around an
/// `x`.
pub open spec fn window_size_of(s: Seq<char>) -> Option<(i32, i32)> {
    match first_x(s) {
        Some(p) => match (parsed_i32(s.subrange(0, p)), parsed_i32(s.subrange(p + 1, s.len() as int))) {
            (Some(w), Some(h)) => if 0 < w && 0 < h {
                Some((w, h))
            } else {
                None
            },
            _ => None,
        },
        None => None,
    }
}

/// Parses a `WIDTHxHEIGHT` window size, e.g. `"640x480"`. Anything but two positive
/// `i32` integers around one `x` fails with `InvalidData`.
pub fn parse_window_size(s: &str) -> (r: Result<(i32, i32), OglError>)
    ensures
        match window_size_of(s@) {
            Some(wh) => r == Ok::<(i32, i32), OglError>(wh),
            None => r == Err::<(i32, i32), OglError>(OglError::InvalidData),
        },
{
    let n = s.unicode_len();
    let mut p: usize = 0;
    while p < n
        invariant
            n == s@.len(),
            p <= n,
            forall|j: int| 0 <= j < p ==> s@[j] != 'x',
        ensures
            p <= n,
            forall|j: int| 0 <= j < p ==> s@[j] != 'x',
            p < n ==> s@[p as int] == 'x',
        decreases n - p,
    {
        if s.get_char(p) == 'x' {
            break;
        }
        p = p + 1;
    }
    if p == n {
        assert(!exists|i: int| 0 <= i < s@.len() && s@[i] == 'x');
        return Err(OglError::InvalidData);
    }
    proof {
        assert(s@[p as int] == 'x');
        let q = first_x(s@).unwrap();
        assert(0 <= q < s@.len() && s@[q] == 'x' && forall|j: int| 0 <= j < q ==> s@[j] != 'x');
        assert(q == p as int) by {
            if q < p {
                assert(s@[q] != 'x');
            } else if q > p {
                assert(s@[p as int] != 'x');
            }
        }
    }
    let w = parse_i32(s.substring_char(0, p));
    let h = parse_i32(s.substring_char(p + 1, n));
    match (w, h) {
        (Some(w), Some(h)) => {
            if 0 < w && 0 < h {
                Ok((w, h))
            } else {
                Err(OglError::InvalidData)
            }
        },
        _ => Err(OglError::InvalidData),
    }
}

/// The windowing backend that draws.
#[derive(Debug, Clone, Copy, PartialEq, Eq, Structural)]
pub enum Backend {
    Wayland,
    Sdl,
}

/// What the command line asks for: exactly one backend, or the list of demos.
#[derive(Debug, Clone, Copy, PartialEq, Eq, Structural)]
pub enum Mode {
    Wayland,
    Sdl,
    ListFunc,
}

/// What the program goes on to do.
#[derive(Debug, Clone, Copy, PartialEq, Eq, Structural)]
pub enum Launch {
    /// Print every demo with its index, and exit successfully.
    ListFunctions,
    /// Open a window of the given size with the backend and run the demo.
    Run { width: i32, height: i32, demo: DrawFunc, backend: Backend },
}

/// The launch that a window argument, a demo index and a mode give.
pub open spec fn launch_of(window: Seq<char>, func: usize, mode: Mode) -> Result<Launch, OglError> {
    match window_size_of(window) {
        None => Err(OglError::InvalidData),
        Some((width, height)) => match mode {
            Mode::ListFunc => Ok(Launch::ListFunctions),
            Mode::Wayland => if demo_at(func as int) is InvalidDrawFunc {
                Err(OglError::InvalidData)
            } else {
                Ok(Launch::Run { width, height, demo: demo_at(func as int), backend: Backend::Wayland })
            },
            Mode::Sdl => if demo_at(func as int) is InvalidDrawFunc {
                Err(OglError::InvalidData)
            } else {
                Ok(Launch::Run { width, height, demo: demo_at(func as int), backend: Backend::Sdl })
            },
        },
    }
}

/// Decides what to do from the command line: the window size is checked first, then the
/// listing is served, then the demo index must name a demo. Every failure is `InvalidData`.
pub fn plan_launch(window: &str, func: usize, mode: Mode) -> (r: Result<Launch, OglError>)
    ensures
        r == launch_of(window@, func, mode),
{
    let (width, height) = match parse_window_size(window) {
        Ok(wh) => wh,
        Err(e) => {
            return Err(e);
        },
    };
    let backend = match mode {
        Mode::ListFunc => {
            return Ok(Launch::ListFunctions);
        },
        Mode::Wayland => Backend::Wayland,
        Mode::Sdl => Backend::Sdl,
    };
    let demo = DrawFunc::from_index(func);
    if demo == DrawFunc::InvalidDrawFunc {
        return Err(OglError::InvalidData);
    }
    Ok(Launch::Run { width, height, demo, backend })
}

/// How much the log shows.
#[derive(Debug, Clone, Copy, PartialEq, Eq, Structural)]
pub enum LogLevel {
    Info,
    Debug,
    Trace,
}

/// The log level for `verbose` repetitions of `-v`: debug for one, trace for two, info
/// otherwise.
pub fn log_level(verbose: u8) -> (r: LogLevel)
    ensures
        verbose == 1 ==> r == LogLevel::Debug,
        verbose == 2 ==> r == LogLevel::Trace,
        verbose != 1 && verbose != 2 ==> r == LogLevel::Info,
{
    match verbose {
        1 => LogLevel::Debug,
        2 => LogLevel::Trace,
        _ => LogLevel::Info,
    }
}

} // verus!
