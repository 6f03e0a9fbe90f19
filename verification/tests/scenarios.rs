//! Decoding scenarios: plain variables, pointers, arrays, constructors,
//! destructors, functions, back-references, and every failure kind.
use msvc_demangle::demangle;
use msvc_demangle::error::ErrorKind;

fn expect_ok(input: &str, reference: &str) {
    let r = demangle(input);
    match r {
        Ok(s) => assert_eq!(s, reference),
        Err(e) => panic!("decoding {} failed: {:?}", input, e),
    }
}

fn expect_err(input: &str, kind: ErrorKind) {
    let r = demangle(input);
    match r {
        Ok(s) => panic!("decoding {} unexpectedly gave {}", input, s),
        Err(e) => assert_eq!(e.kind, kind),
    }
}

#[test]
fn plain_int_variable() {
    expect_ok("?x@@3HA", "int x");
}

#[test]
fn pointer_to_int_variable() {
    expect_ok("?x@@3PEAHEA", "int * x");
}

#[test]
fn pointer_to_array_of_int() {
    expect_ok("?x@@3PEAY02HEA", "int(* x)[3]");
}

#[test]
fn pointer_to_two_dimensional_array() {
    expect_ok("?x@@3PEAY1NKM@5HEA", "int(* x)[3500][6]");
}

#[test]
fn constructor() {
    expect_ok("??0klass@@QEAA@XZ", "klass::klass(void)");
}

#[test]
fn destructor() {
    expect_ok("??1klass@@QEAA@XZ", "klass::~klass(void)");
}

#[test]
fn nonmember_function_two_params() {
    expect_ok("?x@@YAXMH@Z", "void x(float,int)");
}

#[test]
fn namespaced_variable() {
    expect_ok("?x@ns@@3HA", "int ns::x");
}

#[test]
fn class_variable() {
    expect_ok("?instance@@3Vklass@@A", "class klass instance");
}

#[test]
fn const_pointer_qualifiers() {
    // Q encodes a const-qualified pointer
    expect_ok("?x@@3QEAHEB", "int * const x");
}

#[test]
fn overloaded_operator_equality() {
    expect_ok("??8klass@@QEAA_NAEBV0@@Z", "bool klass::operator==(class klass const &)");
}

#[test]
fn missing_prefix_marker() {
    expect_err("x@@3HA", ErrorKind::MissingPrefixMarker);
}

#[test]
fn unexpected_end_of_input() {
    expect_err("?x", ErrorKind::UnexpectedEndOfInput);
}

#[test]
fn unterminated_number() {
    expect_err("?x@@3PEAYZZHEA", ErrorKind::UnterminatedNumber);
}

#[test]
fn array_dimension_zero_rejected() {
    expect_err("?x@@3PEAYA@HEA", ErrorKind::InvalidArrayDimension);
}

#[test]
fn array_dimension_negative_rejected() {
    expect_err("?x@@3PEAY?0HEA", ErrorKind::InvalidArrayDimension);
}

#[test]
fn unknown_operator_code() {
    expect_err("??=abc@@3HA", ErrorKind::UnknownOperatorCode);
}

#[test]
fn unknown_function_class_byte() {
    expect_err("?x@@z", ErrorKind::UnknownFunctionClassByte);
}

#[test]
fn unknown_calling_convention_byte() {
    expect_err("?x@@YZXMH@Z", ErrorKind::UnknownCallingConventionByte);
}

#[test]
fn unknown_storage_class_byte() {
    expect_err("?x@@YA?ZH@Z", ErrorKind::UnknownStorageClassByte);
}

#[test]
fn unknown_primitive_type_byte() {
    expect_err("?x@@3Z", ErrorKind::UnknownPrimitiveTypeByte);
}

#[test]
fn name_back_reference_out_of_range() {
    // one name has been memorized, so digit 1 points past the cache
    expect_err("?x@1@3HA", ErrorKind::InvalidBackReferenceIndex);
}

#[test]
fn name_back_reference_resolves() {
    // digit 0 re-uses the first memorized name
    expect_ok("?x@0@3HA", "int x::x");
}

#[test]
fn non_ascii_identifier_decodes() {
    // identifier fragments are copied verbatim; the output is re-validated
    // as text only when the string is assembled, so UTF-8 names pass through
    expect_ok("?\u{e9}@@3HA", "int \u{e9}");
    expect_ok("?\u{65e5}\u{672c}@@3HA", "int \u{65e5}\u{672c}");
}

#[test]
fn template_terminator_missing() {
    expect_err("??$t@HZ", ErrorKind::UnexpectedByte);
}

#[test]
fn template_arguments_print_in_angle_brackets() {
    expect_ok("?x@@3V?$tmpl@H@@A", "class tmpl<int>x");
}

#[test]
fn parameter_back_reference_within_one_list() {
    // the struct type is memorized by this list; digit 0 re-uses it
    expect_ok("?x@@YAXU?$t@PAH@@0@Z", "void x(struct t<int *>,struct t<int *>)");
}

#[test]
fn parameter_back_reference_never_reaches_sibling_list() {
    // the template argument list memorized int*, but the function's own
    // parameter list starts with a fresh cache: its first token cannot be
    // a back-reference digit
    expect_err("?x@?$q@PAH@@YAX0@Z", ErrorKind::InvalidBackReferenceIndex);
}

#[test]
fn single_byte_types_are_never_memorized() {
    // H is a one-byte encoding, so the list's cache stays empty
    expect_err("?x@@YAXH0@Z", ErrorKind::InvalidBackReferenceIndex);
}

#[test]
fn name_cache_holds_first_ten_names() {
    // twelve distinct names: only the first ten are memorized, and the
    // digit 9 picks the tenth
    expect_ok(
        "?a@b@c@d@e@f@g@h@i@j@k@l@9@3HA",
        "int j::l::k::j::i::h::g::f::e::d::c::b::a",
    );
}

#[test]
fn type_cache_holds_first_ten_types() {
    // twelve struct parameters: the digit 9 picks the tenth
    expect_ok(
        "?x@@YAXUa@@Ub@@Uc@@Ud@@Ue@@Uf@@Ug@@Uh@@Ui@@Uj@@Uk@@Ul@@9@Z",
        "void x(struct a,struct b,struct c,struct d,struct e,struct f,struct g,struct h,struct i,struct j,struct k,struct l,struct j)",
    );
}

#[test]
fn decoding_is_deterministic() {
    let inputs = vec!["?x@@3HA", "?x@@YAXMH@Z", "x@@3HA", "?x@1@3HA", "??0klass@@QEAA@XZ"];
    for input in inputs {
        let a = demangle(input);
        let b = demangle(input);
        match (&a, &b) {
            (Ok(x), Ok(y)) => assert_eq!(x, y),
            (Err(x), Err(y)) => {
                assert_eq!(x.kind, y.kind);
                assert_eq!(x.offender, y.offender);
            },
            _ => panic!("two decodes of {} disagreed", input),
        }
    }
}

#[test]
fn printing_same_tree_twice_is_stable() {
    let a = demangle("?x@@3PEAY02HEA");
    let b = demangle("?x@@3PEAY02HEA");
    assert_eq!(a.unwrap(), b.unwrap());
}

#[test]
fn function_pointer_parameter() {
    expect_ok("?x@@3P6AHMNH@ZEA", "int(* x)(float,double,int)");
}

#[test]
fn error_offender_carries_remainder() {
    let e = demangle("?x@@3Z").unwrap_err();
    assert_eq!(e.kind, ErrorKind::UnknownPrimitiveTypeByte);
    assert_eq!(e.offender, b"Z".to_vec());
}

#[test]
fn empty_input_rejected() {
    expect_err("", ErrorKind::MissingPrefixMarker);
}

#[test]
fn lone_prefix_marker_rejected() {
    expect_err("?", ErrorKind::UnexpectedEndOfInput);
}

#[test]
fn placement_new_operator_without_class_name() {
    expect_ok("??2@YAPEAX_K@Z", "void * operator new(uint64_t)");
}

#[test]
fn empty_parameter_list_prints_empty_parentheses() {
    // the list terminator follows at once: no parameters at all
    expect_ok("?x@@YAM@Z", "float x()");
}
