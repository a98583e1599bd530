use std::cell::RefCell;

use miy::bindings::{check_resolved, entry_point_names, to_gl_name, Bindings};

/// The symbol held in the buffer, up to its first NUL.
fn symbol_bytes(buffer: &[u8; 64]) -> &[u8] {
    let end = buffer.iter().position(|&b| b == 0).unwrap_or(buffer.len());
    &buffer[..end]
}

fn compare(name: &str, check: &str) {
    let gl_name = to_gl_name(name);
    assert_eq!(symbol_bytes(&gl_name), check.as_bytes());
}

#[test]
fn gl_stringify() {
    compare("ClearColor", "glClearColor");
    compare("sampler_parameteri", "glSamplerParameteri");
    compare("tex_image_2_d", "glTexImage2D");
}

#[test]
fn mangle_examples() {
    compare("clear_color", "glClearColor");
    compare("get_error", "glGetError");
    compare("", "gl");
    compare("_", "gl");
    compare("a", "glA");
    compare("trailing_", "glTrailing");
    compare("two__seps", "glTwoSeps");
}

#[test]
fn mangle_is_nul_terminated_and_prefixed() {
    for name in ["viewport", "tex_image_2_d", "x_y_z", "q"] {
        let buffer = to_gl_name(name);
        assert_eq!(buffer[0], b'g');
        assert_eq!(buffer[1], b'l');
        assert!(buffer.iter().any(|&b| b == 0));
        assert!(!symbol_bytes(&buffer).contains(&b'_'));
    }
}

#[test]
fn mangle_truncates_long_names() {
    let long: String = "a".repeat(100);
    let buffer = to_gl_name(&long);
    // 63 mangled bytes fit; the last byte stays the terminating NUL.
    assert_eq!(buffer[0], b'g');
    assert_eq!(buffer[1], b'l');
    assert_eq!(buffer[2], b'A');
    for b in buffer[3..63].iter() {
        assert_eq!(*b, b'a');
    }
    assert_eq!(buffer[63], 0);
}

#[test]
fn check_resolved_rejects_sentinels() {
    for addr in [0usize, 1, 2, 3, usize::MAX] {
        let r = check_resolved("viewport", addr);
        let e = r.expect_err("sentinel must be rejected");
        assert_eq!(e.name, "viewport");
    }
}

#[test]
fn check_resolved_round_trips_other_addresses() {
    for addr in [4usize, 5, 100, 0xDEAD_BEEF, usize::MAX - 1] {
        let r = check_resolved("viewport", addr);
        assert_eq!(r.expect("a plain address must be accepted"), addr);
    }
}

#[test]
fn load_fails_on_each_sentinel() {
    for bad in [0usize, 1, 2, 3, usize::MAX] {
        let r = Bindings::load(|_symbol| bad);
        let e = r.err().expect("loading must fail");
        // The very first required symbol is the one reported.
        assert_eq!(e.name, "get_error");
    }
}

#[test]
fn load_is_all_or_nothing() {
    // Exactly one required symbol resolves to a sentinel: the whole table
    // construction fails, naming that symbol, and no table is observable.
    let broken = to_gl_name("clear");
    let r = Bindings::load(|symbol: [u8; 64]| if symbol == broken { 3 } else { 4096 });
    let e = r.err().expect("loading must fail");
    assert_eq!(e.name, "clear");
}

#[test]
fn load_resolves_every_entry_point() {
    // A resolver that maps every required symbol to a distinct valid address:
    // loading succeeds and each stored address round-trips exactly.
    let seen: RefCell<Vec<[u8; 64]>> = RefCell::new(Vec::new());
    let r = Bindings::load(|symbol: [u8; 64]| {
        seen.borrow_mut().push(symbol);
        0x1000 + 8 * seen.borrow().len()
    });
    let bindings = r.expect("every symbol resolves");
    let names = entry_point_names();
    assert_eq!(names.len(), 42);
    assert_eq!(bindings.len(), 42);
    let seen = seen.into_inner();
    assert_eq!(seen.len(), 42);
    for (i, name) in names.iter().enumerate() {
        assert_eq!(seen[i], to_gl_name(name));
        assert_eq!(bindings.address(i), 0x1000 + 8 * (i + 1));
    }
}

#[test]
fn loading_error_message_names_the_function() {
    let r = Bindings::load(|_symbol| 0);
    let e = r.err().unwrap();
    assert_eq!(e.message(), "failed to load function get_error");
}

#[test]
fn entry_point_names_are_fixed() {
    let names = entry_point_names();
    assert_eq!(names.len(), 42);
    assert_eq!(names[0], "get_error");
    assert!(names.contains(&"tex_image_2_d"));
    assert!(names.contains(&"delete_samplers"));
}
