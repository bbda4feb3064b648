use rgsl::error::from_native_code;
use rgsl::error::to_native_code;
use rgsl::error::HandlerRegistry;
use rgsl::error::GSL_CONTINUE;
use rgsl::error::GSL_EMAXITER;
use rgsl::error::GSL_ENOMEM;
use rgsl::error::GSL_SUCCESS;
use rgsl::Error;

const NAMED: [(Error, i32); 34] = [
    (Error::Failure, -1),
    (Error::Continue, -2),
    (Error::Domain, 1),
    (Error::Range, 2),
    (Error::Fault, 3),
    (Error::Invalid, 4),
    (Error::Failed, 5),
    (Error::Factorization, 6),
    (Error::Sanity, 7),
    (Error::NoMemory, 8),
    (Error::BadFunction, 9),
    (Error::RunAway, 10),
    (Error::MaxIteration, 11),
    (Error::ZeroDiv, 12),
    (Error::BadTolerance, 13),
    (Error::Tolerance, 14),
    (Error::UnderFlow, 15),
    (Error::OverFlow, 16),
    (Error::Loss, 17),
    (Error::Round, 18),
    (Error::BadLength, 19),
    (Error::NotSquare, 20),
    (Error::Singularity, 21),
    (Error::Diverge, 22),
    (Error::Unsupported, 23),
    (Error::Unimplemented, 24),
    (Error::Cache, 25),
    (Error::Table, 26),
    (Error::NoProgress, 27),
    (Error::NoProgressJacobian, 28),
    (Error::ToleranceF, 29),
    (Error::ToleranceX, 30),
    (Error::ToleranceG, 31),
    (Error::EOF, 32),
];

#[test]
fn test_success_sentinel() {
    assert_eq!(from_native_code(GSL_SUCCESS), Ok(()));
    assert_eq!(to_native_code(Ok(())), GSL_SUCCESS);
    assert_eq!(GSL_SUCCESS, 0);
}

#[test]
fn test_named_codes_decode() {
    for (e, c) in NAMED {
        assert_eq!(from_native_code(c), Err(e));
    }
}

#[test]
fn test_named_codes_encode() {
    for (e, c) in NAMED {
        assert_eq!(to_native_code(Err(e)), c);
    }
}

#[test]
fn test_error_round_trip_named_variants() {
    for (e, _) in NAMED {
        assert_eq!(from_native_code(to_native_code(Err(e))), Err(e));
    }
}

#[test]
fn test_code_round_trip_all_probed_codes() {
    let mut probes: Vec<i32> = Vec::new();
    for c in -40..40 {
        probes.push(c);
    }
    probes.push(i32::MIN);
    probes.push(i32::MAX);
    probes.push(12345);
    probes.push(-12345);
    for c in probes {
        assert_eq!(to_native_code(from_native_code(c)), c);
    }
}

#[test]
fn test_unknown_code_safety() {
    for c in [33, 999, -3, -100, i32::MIN, i32::MAX] {
        assert_eq!(from_native_code(c), Err(Error::Unknown(c)));
        assert_eq!(to_native_code(Err(Error::Unknown(c))), c);
    }
}

#[test]
fn test_max_iteration_round_trip() {
    let decoded = from_native_code(GSL_EMAXITER);
    assert_eq!(decoded, Err(Error::MaxIteration));
    assert_eq!(to_native_code(decoded), GSL_EMAXITER);
    assert_eq!(GSL_EMAXITER, 11);
    assert_eq!(from_native_code(GSL_CONTINUE), Err(Error::Continue));
    assert_eq!(to_native_code(Err(Error::Continue)), GSL_CONTINUE);
}

#[test]
fn test_handle_pairs_payload() {
    assert_eq!(Error::handle(GSL_SUCCESS, 42u32), Ok(42u32));
    assert_eq!(Error::handle(GSL_ENOMEM, 42u32), Err(Error::NoMemory));
    assert_eq!(Error::handle(77, ()), Err(Error::Unknown(77)));
}

#[test]
fn test_messages() {
    assert_eq!(Error::Domain.message(), "Input domain error");
    assert_eq!(Error::NoMemory.message(), "Malloc failed");
    assert_eq!(Error::Unknown(99).message(), "Unknown error");
    for (e, _) in NAMED {
        assert!(!e.message().is_empty());
    }
}

fn handler_a(_msg: &str, _file: &str, _line: u32, _e: Error) {}

fn handler_b(_msg: &str, _file: &str, _line: u32, _e: Error) {}

type Handler = fn(&str, &str, u32, Error);

#[test]
fn test_handler_registry_starts_off() {
    let reg: HandlerRegistry<Handler> = HandlerRegistry::new();
    assert!(!reg.is_active());
}

#[test]
fn test_handler_registry_swap() {
    let mut reg: HandlerRegistry<Handler> = HandlerRegistry::new();

    let prev = reg.set_handler(Some(handler_a));
    assert!(prev.is_none());
    assert!(reg.is_active());

    // install a second handler, then restore what came back
    let prev = reg.set_handler(Some(handler_b));
    assert_eq!(prev, Some(handler_a as Handler));
    let prev = reg.set_handler(prev);
    assert_eq!(prev, Some(handler_b as Handler));
    assert!(reg.is_active());

    // the registry again holds handler_a, byte for byte
    let prev = reg.set_handler(None);
    assert_eq!(prev, Some(handler_a as Handler));
    assert!(!reg.is_active());
}

#[test]
fn test_handler_registry_off() {
    let mut reg: HandlerRegistry<Handler> = HandlerRegistry::new();
    reg.set_handler(Some(handler_a));
    let prev = reg.set_handler_off();
    assert_eq!(prev, Some(handler_a as Handler));
    assert!(!reg.is_active());
    assert!(reg.set_handler_off().is_none());
}
