use vstd::prelude::*;

use crate::copyable::MyStruct;
use crate::decimal::{decimal, digits_of, push_i32};
use crate::dispatch::match_example;
use crate::generic::GenericStruct;
use crate::my_module::public_function;
use crate::record::{StructName, TraitName};
use crate::shape::{draw_all, Circle};
use crate::variant::EnumName;

verus! {

/// The lines that the tour prints before it fetches data, in order: the
/// record, the enum, the generic holder, the case dispatch, the module's
/// function and each drawn shape.
pub fn feature_lines() -> (r: Vec<String>)
    ensures
        r@.len() == 6,
        r@[0]@ == "구조체: field1: 10, field2: Hello"@,
        r@[1]@ == "열거형: Variant2(20)"@,
        r@[2]@ == "제네릭: Generic Field"@,
        r@[3]@ == "Match 문: 둘"@,
        r@[4]@ == "접근 가능한 함수"@,
        r@[5]@ == "Circle with radius 5"@,
{
    proof {
        reveal_with_fuel(digits_of, 2);
        reveal_strlit("구조체: field1: 10, field2: Hello");
        reveal_strlit("구조체: ");
        reveal_strlit("field1: ");
        reveal_strlit(", field2: ");
        reveal_strlit("Hello");
        reveal_strlit("열거형: Variant2(20)");
        reveal_strlit("열거형: Variant2(");
        reveal_strlit(")");
        reveal_strlit("제네릭: Generic Field");
        reveal_strlit("제네릭: ");
        reveal_strlit("Generic Field");
        reveal_strlit("Match 문: 둘");
        reveal_strlit("Match 문: ");
        reveal_strlit("둘");
        reveal_strlit("Circle with radius 5");
        reveal_strlit("Circle with radius ");
        assert(decimal(10) =~= seq!['1', '0']);
        assert(decimal(20) =~= seq!['2', '0']);
        assert(decimal(5) =~= seq!['5']);
    }
    let mut lines: Vec<String> = Vec::new();

    let my_struct = StructName { field1: 10, field2: String::from_str("Hello") };
    let mut line = String::from_str("구조체: ");
    line.append(my_struct.method_name().as_str());
    assert(line@ =~= "구조체: field1: 10, field2: Hello"@);
    lines.push(line);

    let my_enum = EnumName::Variant2(20);
    if let EnumName::Variant2(val) = my_enum {
        let mut line = String::from_str("열거형: Variant2(");
        push_i32(&mut line, val);
        line.append(")");
        assert(line@ =~= "열거형: Variant2(20)"@);
        lines.push(line);
    }

    let generic_struct = GenericStruct { field: "Generic Field" };
    let mut line = String::from_str("제네릭: ");
    line.append(generic_struct.field);
    assert(line@ =~= "제네릭: Generic Field"@);
    lines.push(line);

    let mut line = String::from_str("Match 문: ");
    line.append(match_example(2).as_str());
    assert(line@ =~= "Match 문: 둘"@);
    lines.push(line);

    lines.push(public_function());

    let drawable_objects: Vec<Circle> = vec![Circle { radius: 5 }];
    let mut drawn = draw_all(&drawable_objects);
    assert(drawn@[0]@ =~= "Circle with radius 5"@);
    lines.append(&mut drawn);
    lines
}

/// The line that the tour prints last: the debug form of a copied record.
pub fn derive_line() -> (r: String)
    ensures
        r@ == "Derive: MyStruct { field: 100 }"@,
{
    proof {
        reveal_with_fuel(digits_of, 3);
        reveal_strlit("Derive: MyStruct { field: 100 }");
        reveal_strlit("Derive: ");
        reveal_strlit("MyStruct { field: ");
        reveal_strlit(" }");
        assert(decimal(100) =~= seq!['1', '0', '0']);
    }
    let my_struct = MyStruct { field: 100 };
    let copied = my_struct;
    let mut line = String::from_str("Derive: ");
    line.append(copied.debug_string().as_str());
    assert(line@ =~= "Derive: MyStruct { field: 100 }"@);
    line
}

} // verus!
