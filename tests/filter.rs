use custom_header_filter::filter::{custom_header, Action, Filter, Root};

#[test]
fn header_is_x_wasm_custom_foo() {
    let (name, value) = custom_header();
    assert_eq!(name, "x-wasm-custom");
    assert_eq!(value, "FOO");
}

#[test]
fn reaction_sets_custom_header_and_continues() {
    let mut filter = Filter;
    let (instruction, action) = filter.on_http_response_headers(0, false);
    assert_eq!(instruction.name, "x-wasm-custom");
    assert_eq!(instruction.value, "FOO");
    assert_eq!(action, Action::Continue);
}

#[test]
fn reaction_ignores_header_count_and_end_of_stream() {
    let mut filter = Filter;
    for (num_headers, end_of_stream) in [(0, false), (0, true), (1, false), (17, true), (usize::MAX, true)] {
        let (instruction, action) = filter.on_http_response_headers(num_headers, end_of_stream);
        assert_eq!((instruction.name, instruction.value), ("x-wasm-custom", "FOO"));
        assert_eq!(action, Action::Continue);
    }
    assert_eq!(filter, Filter);
}

#[test]
fn creates_a_context_for_every_stream() {
    let root = Root::new();
    assert_eq!(root.create_http_context(0), Some(Filter));
    assert_eq!(root.create_http_context(1), Some(Filter));
    assert_eq!(root.create_http_context(u32::MAX), Some(Filter));
}

#[test]
fn contexts_do_not_depend_on_earlier_streams() {
    let root = Root::new();
    let first = root.create_http_context(42);
    for id in 0..100u32 {
        let _ = root.create_http_context(id);
    }
    assert_eq!(root.create_http_context(42), first);
}
