//! The seven demonstration routines: each computes its small example values
//! and renders the lines of text it stands for, proved equal to a
//! specification of the output line by line.

use vstd::prelude::*;
use crate::text::bool_text;
use crate::text::dec_str;
use crate::text::dec_str_int;
use crate::text::fmt_bool;
use crate::text::fmt_i32;
use crate::text::fmt_u64;
use crate::text::lemma_deep_view_push;
use crate::menu::Demo;

verus! {

/// A prefix followed by a decimal number, as one line.
pub open spec fn num_line(prefix: Seq<char>, n: nat) -> Seq<char> {
    prefix + dec_str(n)
}

/// Renders a prefix followed by a decimal number.
pub fn render_num_line(prefix: &str, n: u64) -> (r: String)
    ensures
        r@ == num_line(prefix@, n as nat),
{
    let mut s = String::from_str(prefix);
    let digits = fmt_u64(n);
    s.append(digits.as_str());
    s
}

/// The values the shadowing walkthrough steps through: a mutable binding,
/// its mutation, a shadowing rebind one above it, a doubled shadow inside
/// an inner scope, and the outer value again after that scope ends.
pub struct ShadowSteps {
    pub first: u64,
    pub mutated: u64,
    pub shadowed: u64,
    pub inner: u64,
    pub outer: u64,
}

/// Walks through mutation, shadowing and scope exit, recording the value
/// the binding shows at each step.
pub fn shadowing_values() -> (r: ShadowSteps)
    ensures
        r.first == 5,
        r.mutated == 6,
        r.shadowed == r.mutated + 1,
        r.inner == 2 * r.shadowed,
        r.outer == r.shadowed,
{
    let mut x: u64 = 5;
    let first = x;
    x = 6;
    let mutated = x;
    let x = x + 1;
    let shadowed = x;
    let inner = {
        let x = x * 2;
        x
    };
    let outer = x;
    ShadowSteps { first, mutated, shadowed, inner, outer }
}

/// The lines the shadowing walkthrough prints.
pub open spec fn spec_shadowing_lines() -> Seq<Seq<char>> {
    seq![
        num_line("The value of x is: "@, 5),
        num_line("The value of x is: "@, 6),
        num_line("The value of x is: "@, 7),
        num_line("The value of x in the inner scope is : "@, 14),
        num_line("The value of x in the outer scope is : "@, 7),
    ]
}

/// Renders the shadowing walkthrough.
pub fn shadowing_lines() -> (out: Vec<String>)
    ensures
        out.deep_view() == spec_shadowing_lines(),
{
    let v = shadowing_values();
    let mut out: Vec<String> = Vec::new();
    out.push(render_num_line("The value of x is: ", v.first));
    out.push(render_num_line("The value of x is: ", v.mutated));
    out.push(render_num_line("The value of x is: ", v.shadowed));
    out.push(render_num_line("The value of x in the inner scope is : ", v.inner));
    out.push(render_num_line("The value of x in the outer scope is : ", v.outer));
    proof {
        assert(out.deep_view() =~~= spec_shadowing_lines());
    }
    out
}

/// The literal values the integer walkthrough prints, one numeral base
/// each: decimal with a separator, hexadecimal, octal, binary, and a byte.
pub struct IntegerLiterals {
    pub decimal: u32,
    pub hex: u32,
    pub octal: u32,
    pub binary: u32,
    pub byte: u8,
}

/// Produces the integer walkthrough's literal values.
pub fn integer_literal_values() -> (r: IntegerLiterals)
    ensures
        r.decimal == 3_14u32,
        r.hex == 0xff,
        r.octal == 0o77,
        r.binary == 0b1111_0000,
        r.byte == 65,
{
    IntegerLiterals {
        decimal: 3_14u32,
        hex: 0xff,
        octal: 0o77,
        binary: 0b1111_0000,
        byte: 65,  // the byte literal of the letter A
    }
}

/// The lines the integer walkthrough prints: a table of widths, then each
/// literal with its value.
pub open spec fn spec_integer_lines() -> Seq<Seq<char>> {
    seq![
        "8 bit:    i8 (signed),    u8 (unsigned)"@,
        "16 bit:   i8 (signed),    u8 (unsigned)"@,
        "32 bit:   i8 (signed),    u8 (unsigned) [default]"@,
        "64 bit:   i8 (signed),    u8 (unsigned)"@,
        "128 bit:  i8 (signed),    u8 (unsigned)"@,
        "arch:     isize (signed), usize (unsigned)"@,
        Seq::<char>::empty(),
        "Literals:"@,
        num_line("Decimal    (3_14u32): "@, 314),
        num_line("Hex           (0xff): "@, 255),
        num_line("Octal         (0o77): "@, 63),
        num_line("Binary (0b1111_0000): "@, 240),
        num_line("Byte          (b'A'): "@, 65),
    ]
}

/// Renders the integer walkthrough.
pub fn integer_lines() -> (out: Vec<String>)
    ensures
        out.deep_view() == spec_integer_lines(),
{
    let v = integer_literal_values();
    let mut out: Vec<String> = Vec::new();
    out.push(String::from_str("8 bit:    i8 (signed),    u8 (unsigned)"));
    out.push(String::from_str("16 bit:   i8 (signed),    u8 (unsigned)"));
    out.push(String::from_str("32 bit:   i8 (signed),    u8 (unsigned) [default]"));
    out.push(String::from_str("64 bit:   i8 (signed),    u8 (unsigned)"));
    out.push(String::from_str("128 bit:  i8 (signed),    u8 (unsigned)"));
    out.push(String::from_str("arch:     isize (signed), usize (unsigned)"));
    out.push(String::new());
    out.push(String::from_str("Literals:"));
    out.push(render_num_line("Decimal    (3_14u32): ", v.decimal as u64));
    out.push(render_num_line("Hex           (0xff): ", v.hex as u64));
    out.push(render_num_line("Octal         (0o77): ", v.octal as u64));
    out.push(render_num_line("Binary (0b1111_0000): ", v.binary as u64));
    out.push(render_num_line("Byte          (b'A'): ", v.byte as u64));
    proof {
        assert(out.deep_view() =~~= spec_integer_lines());
    }
    out
}

/// The lines the floating-point walkthrough prints. The two values are
/// fixed text here: floating-point numbers stay outside the verified
/// library, and this walkthrough only shows them.
pub open spec fn spec_float_lines() -> Seq<Seq<char>> {
    seq![
        "The value of the f64 variable x is: 2"@,
        "The value of the f32 variable y is: 3.14"@,
        Seq::<char>::empty(),
        "Floats are always unsigned and f64 is roughly twice as accurate as f32 (IEEE standard) with similar performance."@,
    ]
}

/// Renders the floating-point walkthrough.
pub fn float_lines() -> (out: Vec<String>)
    ensures
        out.deep_view() == spec_float_lines(),
{
    let mut out: Vec<String> = Vec::new();
    out.push(String::from_str("The value of the f64 variable x is: 2"));
    out.push(String::from_str("The value of the f32 variable y is: 3.14"));
    out.push(String::new());
    out.push(
        String::from_str(
            "Floats are always unsigned and f64 is roughly twice as accurate as f32 (IEEE standard) with similar performance.",
        ),
    );
    proof {
        assert(out.deep_view() =~~= spec_float_lines());
    }
    out
}

/// Produces the boolean walkthrough's two values.
pub fn boolean_values() -> (r: (bool, bool))
    ensures
        r.0 == true,
        r.1 == false,
{
    let t = true;
    let f = false;
    (t, f)
}

/// The lines the boolean walkthrough prints.
pub open spec fn spec_boolean_lines() -> Seq<Seq<char>> {
    seq![
        "Only true (1) or false (0)."@,
        "True: "@ + bool_text(true),
        "False: "@ + bool_text(false),
    ]
}

/// Renders the boolean walkthrough.
pub fn boolean_lines() -> (out: Vec<String>)
    ensures
        out.deep_view() == spec_boolean_lines(),
{
    let v = boolean_values();
    let mut out: Vec<String> = Vec::new();
    out.push(String::from_str("Only true (1) or false (0)."));
    let mut t_line = String::from_str("True: ");
    t_line.append(fmt_bool(v.0));
    out.push(t_line);
    let mut f_line = String::from_str("False: ");
    f_line.append(fmt_bool(v.1));
    out.push(f_line);
    proof {
        assert(out.deep_view() =~~= spec_boolean_lines());
    }
    out
}

/// Produces the character walkthrough's two values: a plain letter and a
/// multi-byte character.
pub fn char_values() -> (r: (char, char))
    ensures
        r.0 == 'c',
        r.1 == '😻',
{
    let c = 'c';
    let emoji = '😻';
    (c, emoji)
}

/// The lines the character walkthrough prints.
pub open spec fn spec_char_lines() -> Seq<Seq<char>> {
    seq![
        "Single character variable, the most primitive alphabetic type"@,
        "c:     "@ + "c"@,
        "emoji: "@ + "😻"@,
    ]
}

/// Renders the character walkthrough.
pub fn char_lines() -> (out: Vec<String>)
    ensures
        out.deep_view() == spec_char_lines(),
{
    let mut out: Vec<String> = Vec::new();
    out.push(String::from_str("Single character variable, the most primitive alphabetic type"));
    let mut c_line = String::from_str("c:     ");
    c_line.append("c");
    out.push(c_line);
    let mut e_line = String::from_str("emoji: ");
    e_line.append("😻");
    out.push(e_line);
    proof {
        assert(out.deep_view() =~~= spec_char_lines());
    }
    out
}

/// The three-field compound value the tuple walkthrough groups: an
/// integer, a value shown as the text "3.14" (the verified library holds
/// no floating-point number, only its rendering), and a byte.
pub struct TripleDemo {
    pub x: u64,
    pub y_text: String,
    pub z: u8,
}

/// Produces the tuple walkthrough's fixed triple.
pub fn triple_value() -> (t: TripleDemo)
    ensures
        t.x == 69,
        t.y_text@ == "3.14"@,
        t.z == 49,
{
    TripleDemo { x: 69, y_text: String::from_str("3.14"), z: 49 }  // 49: the byte of the digit one
}

/// Destructures the triple into its three named parts, in order.
pub fn destructure(t: TripleDemo) -> (r: (u64, String, u8))
    ensures
        r.0 == t.x,
        r.1@ == t.y_text@,
        r.2 == t.z,
{
    let TripleDemo { x, y_text, z } = t;
    (x, y_text, z)
}

/// An explicit zero-sized marker standing for the empty value a function
/// returns when it returns nothing else.
#[derive(Clone, Copy, Debug, PartialEq, Eq, Structural)]
pub struct UnitMark;

/// Does nothing and returns the empty marker value.
pub fn void_action() -> (r: UnitMark)
    ensures
        r == UnitMark,
{
    UnitMark
}

/// The triple's three parts as text, comma separated.
pub open spec fn triple_text(x: nat, y: Seq<char>, z: nat) -> Seq<char> {
    dec_str(x) + ", "@ + y + ", "@ + dec_str(z)
}

/// Renders the triple's three parts, comma separated.
pub fn render_triple_text(t: &TripleDemo) -> (r: String)
    ensures
        r@ == triple_text(t.x as nat, t.y_text@, t.z as nat),
{
    let mut s = fmt_u64(t.x);
    s.append(", ");
    s.append(t.y_text.as_str());
    s.append(", ");
    let z_digits = fmt_u64(t.z as u64);
    s.append(z_digits.as_str());
    proof {
        assert(s@ =~= triple_text(t.x as nat, t.y_text@, t.z as nat));
    }
    s
}

/// The lines the tuple walkthrough prints: positional access, access into
/// a nested tuple, destructuring, a structural rendering, and the empty
/// marker value an otherwise silent function returns.
pub open spec fn spec_tuple_lines() -> Seq<Seq<char>> {
    seq![
        "The first compound type, a tuple groups a variety of variables into one."@,
        "Tuple: "@ + triple_text(69, "3.14"@, 49),
        "Layered tuple: ("@ + triple_text(69, "3.14"@, 49) + "), "@ + "c"@,
        "After destructuring the tuple into x, y, z:"@,
        "x = "@ + dec_str(69) + ", y = "@ + "3.14"@ + ", z = "@ + dec_str(49),
        "tuple read using functional access method (:?): ("@ + triple_text(69, "3.14"@, 49)
            + ")"@,
        Seq::<char>::empty(),
        "unit: ()"@,
        "Void returns unit: "@ + bool_text(true),
    ]
}

/// Renders the tuple walkthrough.
pub fn tuple_lines() -> (out: Vec<String>)
    ensures
        out.deep_view() == spec_tuple_lines(),
{
    let t = triple_value();
    let mut out: Vec<String> = Vec::new();
    out.push(
        String::from_str(
            "The first compound type, a tuple groups a variety of variables into one.",
        ),
    );
    let mut plain = String::from_str("Tuple: ");
    let text = render_triple_text(&t);
    plain.append(text.as_str());
    out.push(plain);
    let mut layered = String::from_str("Layered tuple: (");
    layered.append(text.as_str());
    layered.append("), ");
    layered.append("c");
    out.push(layered);
    out.push(String::from_str("After destructuring the tuple into x, y, z:"));
    let (x, y, z) = destructure(t);
    let mut parts = String::from_str("x = ");
    let x_digits = fmt_u64(x);
    parts.append(x_digits.as_str());
    parts.append(", y = ");
    parts.append(y.as_str());
    parts.append(", z = ");
    let z_digits = fmt_u64(z as u64);
    parts.append(z_digits.as_str());
    out.push(parts);
    let mut structural = String::from_str("tuple read using functional access method (:?): (");
    structural.append(text.as_str());
    structural.append(")");
    out.push(structural);
    out.push(String::new());
    out.push(String::from_str("unit: ()"));
    let mark = void_action();
    let eq: bool = mark == UnitMark;
    let mut unit_line = String::from_str("Void returns unit: ");
    unit_line.append(fmt_bool(eq));
    out.push(unit_line);
    proof {
        assert(out.deep_view() =~~= spec_tuple_lines());
    }
    out
}

/// The five elements the array walkthrough lists explicitly.
pub open spec fn spec_demo_array() -> Seq<i32> {
    seq![1i32, 2i32, 3i32, 4i32, 5i32]
}

/// Builds the walkthrough's array from an explicit literal list.
pub fn demo_array() -> (a: [i32; 5])
    ensures
        a@ == spec_demo_array(),
{
    let a = [1i32, 2i32, 3i32, 4i32, 5i32];
    proof {
        assert(a@ =~= spec_demo_array());
    }
    a
}

/// Builds a same-length array by repeating one value.
pub fn filled_array() -> (a: [i32; 5])
    ensures
        forall|i: int| 0 <= i < 5 ==> a@[i] == 3,
{
    let a = [3i32; 5];
    a
}

/// Reads one element of the array; the index must be in bounds.
pub fn array_element(a: &[i32; 5], i: usize) -> (r: i32)
    requires
        i < 5,
    ensures
        r == a@[i as int],
{
    a[i]
}

/// One row of the multi-line rendering of an array: the element indented
/// and followed by a comma.
pub open spec fn pretty_rows(a: Seq<i32>) -> Seq<Seq<char>> {
    Seq::new(a.len(), |i: int| "    "@ + dec_str_int(a[i] as int) + ","@)
}

/// A labelled multi-line rendering of an array: the label line (the
/// opening bracket included), one row per element, the closing bracket,
/// and a blank line after the block.
pub open spec fn spec_pretty_block(label: Seq<char>, a: Seq<i32>) -> Seq<Seq<char>> {
    seq![label] + pretty_rows(a) + seq!["]"@, Seq::<char>::empty()]
}

/// Builds the labelled multi-line rendering of an array.
fn pretty_block(label: &str, a: &[i32; 5]) -> (out: Vec<String>)
    ensures
        out.deep_view() == spec_pretty_block(label@, a@),
{
    let mut out: Vec<String> = Vec::new();
    out.push(String::from_str(label));
    let mut i: usize = 0;
    while i < 5
        invariant
            i <= 5,
            out.deep_view() == seq![label@] + pretty_rows(a@.subrange(0, i as int)),
        decreases 5 - i,
    {
        let mut row = String::from_str("    ");
        let digits = fmt_i32(a[i]);
        row.append(digits.as_str());
        row.append(",");
        let ghost pre = out;
        let ghost row_snap = row;
        out.push(row);
        proof {
            lemma_deep_view_push(pre, out, row_snap);
            assert(out.deep_view() =~= seq![label@] + pretty_rows(a@.subrange(0, i + 1)));
        }
        i = i + 1;
    }
    out.push(String::from_str("]"));
    out.push(String::new());
    proof {
        assert(a@.subrange(0, 5) =~= a@);
        assert(out.deep_view() =~~= spec_pretty_block(label@, a@));
    }
    out
}

/// The lines the array walkthrough prints: the explicit array rendered as
/// a block, the repeated-value array rendered as a block, then the element
/// at index three.
pub open spec fn spec_array_lines() -> Seq<Seq<char>> {
    seq!["A fixed length collection of objects with the same type."@] + spec_pretty_block(
        "arr = ["@,
        spec_demo_array(),
    ) + spec_pretty_block("arr of threes = ["@, seq![3i32, 3i32, 3i32, 3i32, 3i32]) + seq![
        num_line("arr[3] = "@, 4),
    ]
}

/// Renders the array walkthrough.
pub fn array_lines() -> (out: Vec<String>)
    ensures
        out.deep_view() == spec_array_lines(),
{
    let mut out: Vec<String> = Vec::new();
    out.push(String::from_str("A fixed length collection of objects with the same type."));
    let arr = demo_array();
    let mut first_block = pretty_block("arr = [", &arr);
    out.append(&mut first_block);
    let threes = filled_array();
    proof {
        assert(threes@ =~= seq![3i32, 3i32, 3i32, 3i32, 3i32]);
    }
    let mut second_block = pretty_block("arr of threes = [", &threes);
    out.append(&mut second_block);
    let element = array_element(&arr, 3);
    assert(element == 4);
    out.push(render_num_line("arr[3] = ", element as u64));
    proof {
        assert(out.deep_view() =~~= spec_array_lines());
    }
    out
}

/// Dispatches to the renderer of one demonstration.
pub open spec fn spec_demo_lines(d: Demo) -> Seq<Seq<char>> {
    match d {
        Demo::Shadowing => spec_shadowing_lines(),
        Demo::Integers => spec_integer_lines(),
        Demo::Floats => spec_float_lines(),
        Demo::Booleans => spec_boolean_lines(),
        Demo::Chars => spec_char_lines(),
        Demo::Tuples => spec_tuple_lines(),
        Demo::Arrays => spec_array_lines(),
    }
}

/// Renders one demonstration's lines.
pub fn demo_lines(d: Demo) -> (out: Vec<String>)
    ensures
        out.deep_view() == spec_demo_lines(d),
{
    match d {
        Demo::Shadowing => shadowing_lines(),
        Demo::Integers => integer_lines(),
        Demo::Floats => float_lines(),
        Demo::Booleans => boolean_lines(),
        Demo::Chars => char_lines(),
        Demo::Tuples => tuple_lines(),
        Demo::Arrays => array_lines(),
    }
}

} // verus!
