use rust_tour::copyable::MyStruct;
use rust_tour::decimal::{i32_to_string, push_digits, push_i32};
use rust_tour::dispatch::match_example;
use rust_tour::generic::{generic_function, GenericStruct};
use rust_tour::my_module::public_function;
use rust_tour::program::{derive_line, feature_lines};
use rust_tour::record::{StructName, TraitName};
use rust_tour::shape::{draw_all, Circle, Drawable};
use rust_tour::variant::EnumName;

#[test]
fn record_line_is_printed() {
    let lines = feature_lines();
    assert!(lines.iter().any(|l| l == "구조체: field1: 10, field2: Hello"));
    assert_eq!(lines[0], "구조체: field1: 10, field2: Hello");
}

#[test]
fn enum_line_is_printed() {
    let lines = feature_lines();
    assert_eq!(lines[1], "열거형: Variant2(20)");
}

#[test]
fn generic_line_is_printed() {
    let lines = feature_lines();
    assert_eq!(lines[2], "제네릭: Generic Field");
}

#[test]
fn match_example_words() {
    assert_eq!(match_example(2), "둘");
    assert_eq!(match_example(1), "하나");
    assert_eq!(match_example(5), "기타");
    assert_eq!(match_example(0), "기타");
    assert_eq!(match_example(-1), "기타");
    assert_eq!(match_example(i32::MAX), "기타");
    assert_eq!(match_example(i32::MIN), "기타");
}

#[test]
fn match_line_is_printed() {
    assert_eq!(feature_lines()[3], "Match 문: 둘");
}

#[test]
fn module_and_circle_lines_are_printed() {
    let lines = feature_lines();
    assert_eq!(lines.len(), 6);
    assert_eq!(lines[4], "접근 가능한 함수");
    assert_eq!(lines[5], "Circle with radius 5");
}

#[test]
fn derive_line_shows_field_value() {
    assert_eq!(derive_line(), "Derive: MyStruct { field: 100 }");
}

#[test]
fn public_function_message() {
    assert_eq!(public_function(), "접근 가능한 함수");
}

#[test]
fn method_name_formats_both_fields() {
    let s = StructName { field1: 10, field2: "Hello".to_string() };
    assert_eq!(s.method_name(), "field1: 10, field2: Hello");
    let t = StructName { field1: -7, field2: String::new() };
    assert_eq!(t.method_name(), "field1: -7, field2: ");
}

#[test]
fn enum_variants_carry_their_data() {
    let values = [EnumName::Variant1, EnumName::Variant2(20), EnumName::Variant3 { field: "x".to_string() }];
    let mut found = Vec::new();
    for v in values.iter() {
        if let EnumName::Variant2(val) = v {
            found.push(*val);
        }
    }
    assert_eq!(found, vec![20]);
    assert!(matches!(&values[2], EnumName::Variant3 { field } if field == "x"));
}

#[test]
fn generic_holder_and_identity() {
    let g = GenericStruct { field: "Generic Field" };
    assert_eq!(g.field, "Generic Field");
    assert_eq!(generic_function(42u8), 42u8);
    assert_eq!(generic_function("text".to_string()), "text");
}

#[test]
fn circle_draws_its_radius() {
    assert_eq!(Circle { radius: 5 }.draw(), "Circle with radius 5");
    assert_eq!(Circle { radius: -12 }.draw(), "Circle with radius -12");
}

#[test]
fn draw_all_keeps_order() {
    let shapes = vec![Circle { radius: 1 }, Circle { radius: 0 }, Circle { radius: 30 }];
    assert_eq!(
        draw_all(&shapes),
        vec!["Circle with radius 1", "Circle with radius 0", "Circle with radius 30"]
    );
    let none: Vec<Circle> = Vec::new();
    assert!(draw_all(&none).is_empty());
}

#[test]
fn debug_string_matches_derived_debug() {
    for v in [100, 0, -5, i32::MAX, i32::MIN] {
        let m = MyStruct { field: v };
        let copy = m;
        assert_eq!(m.debug_string(), format!("{:?}", copy));
    }
    assert_eq!(MyStruct { field: 100 }.debug_string(), "MyStruct { field: 100 }");
}

#[test]
fn decimal_matches_std_formatting() {
    for v in [0, 1, 9, 10, 99, 100, 12345, -1, -10, -909, i32::MAX, i32::MIN] {
        assert_eq!(i32_to_string(v), v.to_string());
    }
    assert_eq!(i32_to_string(i32::MIN), "-2147483648");
    assert_eq!(i32_to_string(2147483647), "2147483647");
}

#[test]
fn push_appends_to_existing_text() {
    let mut s = "n=".to_string();
    push_i32(&mut s, -42);
    assert_eq!(s, "n=-42");
    let mut t = String::new();
    push_digits(&mut t, u32::MAX);
    assert_eq!(t, "4294967295");
    push_digits(&mut t, 0);
    assert_eq!(t, "42949672950");
}
