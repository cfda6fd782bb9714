//! Writing the bindings' source from a tokenized model. Each piece of
//! generated text is a spec function, and the function that writes it
//! produces exactly that text.
use vstd::prelude::*;
use vstd::string::*;

use crate::abi::{
    AbiModel, EnumDecl, ExecutionVersion, Field, FunctionDecl, StateMutability, StructDecl, TokenizedAbi,
    Variant,
};
use crate::names::{name_of, path_name, render_type, render_type_exec};
use crate::text::{decl_key, decl_key_exec};

verus! {

/// The digit character of a value below ten.
pub open spec fn digit(d: nat) -> char {
    if d == 0 {
        '0'
    } else if d == 1 {
        '1'
    } else if d == 2 {
        '2'
    } else if d == 3 {
        '3'
    } else if d == 4 {
        '4'
    } else if d == 5 {
        '5'
    } else if d == 6 {
        '6'
    } else if d == 7 {
        '7'
    } else if d == 8 {
        '8'
    } else {
        '9'
    }
}

/// The decimal numeral of a natural number.
pub open spec fn dec(n: nat) -> Seq<char>
    decreases n,
{
    if n < 10 {
        seq![digit(n)]
    } else {
        dec(n / 10) + seq![digit(n % 10)]
    }
}

fn digit_str(d: usize) -> (r: &'static str)
    requires
        d < 10,
    ensures
        r@ == seq![digit(d as nat)],
{
    proof {
        reveal_strlit("0");
        reveal_strlit("1");
        reveal_strlit("2");
        reveal_strlit("3");
        reveal_strlit("4");
        reveal_strlit("5");
        reveal_strlit("6");
        reveal_strlit("7");
        reveal_strlit("8");
        reveal_strlit("9");
    }
    if d == 0 {
        assert("0"@ =~= seq!['0']);
        "0"
    } else if d == 1 {
        assert("1"@ =~= seq!['1']);
        "1"
    } else if d == 2 {
        assert("2"@ =~= seq!['2']);
        "2"
    } else if d == 3 {
        assert("3"@ =~= seq!['3']);
        "3"
    } else if d == 4 {
        assert("4"@ =~= seq!['4']);
        "4"
    } else if d == 5 {
        assert("5"@ =~= seq!['5']);
        "5"
    } else if d == 6 {
        assert("6"@ =~= seq!['6']);
        "6"
    } else if d == 7 {
        assert("7"@ =~= seq!['7']);
        "7"
    } else if d == 8 {
        assert("8"@ =~= seq!['8']);
        "8"
    } else {
        assert("9"@ =~= seq!['9']);
        "9"
    }
}

/// Writes a number in decimal.
pub fn dec_exec(n: usize) -> (r: String)
    ensures
        r@ == dec(n as nat),
    decreases n,
{
    let ds = digit_str(n % 10);
    if n < 10 {
        String::from_str(ds)
    } else {
        let mut r = dec_exec(n / 10);
        r.append(ds);
        r
    }
}

/// A struct field declaration.
pub open spec fn field_decl(f: Field, al: Seq<(String, String)>) -> Seq<char> {
    "    pub "@ + f.name@ + ": "@ + render_type(f.ty@, al) + ",\n"@
}

fn field_decl_exec(f: &Field, al: &Vec<(String, String)>) -> (r: String)
    ensures
        r@ == field_decl(*f, al@),
{
    let mut r = String::from_str("    pub ");
    let t0 = f.name.clone();
    r.append(t0.as_str());
    r.append(": ");
    let t1 = render_type_exec(f.ty.as_str(), al);
    r.append(t1.as_str());
    r.append(",\n");
    r
}

/// Encodes one struct field, in its place in the wire order.
pub open spec fn field_ser(f: Field, al: Seq<(String, String)>) -> Seq<char> {
    "        __out.extend(<"@ + render_type(f.ty@, al) + " as cainome::cairo_serde::CairoSerde>::cairo_serialize(&__rust."@ + f.name@ + "));\n"@
}

fn field_ser_exec(f: &Field, al: &Vec<(String, String)>) -> (r: String)
    ensures
        r@ == field_ser(*f, al@),
{
    let mut r = String::from_str("        __out.extend(<");
    let t0 = render_type_exec(f.ty.as_str(), al);
    r.append(t0.as_str());
    r.append(" as cainome::cairo_serde::CairoSerde>::cairo_serialize(&__rust.");
    let t1 = f.name.clone();
    r.append(t1.as_str());
    r.append("));\n");
    r
}

/// Decodes one struct field, in its place in the wire order.
pub open spec fn field_de(f: Field, al: Seq<(String, String)>) -> Seq<char> {
    "        let "@ + f.name@ + " = <"@ + render_type(f.ty@, al) + " as cainome::cairo_serde::CairoSerde>::cairo_deserialize(__felts, __offset)?;\n        __offset += <"@ + render_type(f.ty@, al) + " as cainome::cairo_serde::CairoSerde>::cairo_serialized_size(&"@ + f.name@ + ");\n"@
}

fn field_de_exec(f: &Field, al: &Vec<(String, String)>) -> (r: String)
    ensures
        r@ == field_de(*f, al@),
{
    let mut r = String::from_str("        let ");
    let t0 = f.name.clone();
    r.append(t0.as_str());
    r.append(" = <");
    let t1 = render_type_exec(f.ty.as_str(), al);
    r.append(t1.as_str());
    r.append(" as cainome::cairo_serde::CairoSerde>::cairo_deserialize(__felts, __offset)?;\n        __offset += <");
    let t2 = render_type_exec(f.ty.as_str(), al);
    r.append(t2.as_str());
    r.append(" as cainome::cairo_serde::CairoSerde>::cairo_serialized_size(&");
    let t3 = f.name.clone();
    r.append(t3.as_str());
    r.append(");\n");
    r
}

/// A field in the struct literal that decoding builds.
pub open spec fn field_init(f: Field) -> Seq<char> {
    "            "@ + f.name@ + ",\n"@
}

fn field_init_exec(f: &Field) -> (r: String)
    ensures
        r@ == field_init(*f),
{
    let mut r = String::from_str("            ");
    let t0 = f.name.clone();
    r.append(t0.as_str());
    r.append(",\n");
    r
}

/// A parameter of a generated method.
pub open spec fn arg_decl(f: Field, al: Seq<(String, String)>) -> Seq<char> {
    ", "@ + f.name@ + ": &"@ + render_type(f.ty@, al)
}

fn arg_decl_exec(f: &Field, al: &Vec<(String, String)>) -> (r: String)
    ensures
        r@ == arg_decl(*f, al@),
{
    let mut r = String::from_str(", ");
    let t0 = f.name.clone();
    r.append(t0.as_str());
    r.append(": &");
    let t1 = render_type_exec(f.ty.as_str(), al);
    r.append(t1.as_str());
    r
}

/// Encodes one argument into the call data.
pub open spec fn arg_ser(f: Field, al: Seq<(String, String)>) -> Seq<char> {
    "        __calldata.extend(<"@ + render_type(f.ty@, al) + " as cainome::cairo_serde::CairoSerde>::cairo_serialize("@ + f.name@ + "));\n"@
}

fn arg_ser_exec(f: &Field, al: &Vec<(String, String)>) -> (r: String)
    ensures
        r@ == arg_ser(*f, al@),
{
    let mut r = String::from_str("        __calldata.extend(<");
    let t0 = render_type_exec(f.ty.as_str(), al);
    r.append(t0.as_str());
    r.append(" as cainome::cairo_serde::CairoSerde>::cairo_serialize(");
    let t1 = f.name.clone();
    r.append(t1.as_str());
    r.append("));\n");
    r
}

/// The field declarations, in order.
pub open spec fn field_decls(xs: Seq<Field>, al: Seq<(String, String)>) -> Seq<char>
    decreases xs.len(),
{
    if xs.len() == 0 {
        Seq::empty()
    } else {
        field_decls(xs.drop_last(), al) + field_decl(xs.last(), al)
    }
}

fn field_decls_exec(xs: &Vec<Field>, al: &Vec<(String, String)>) -> (r: String)
    ensures
        r@ == field_decls(xs@, al@),
{
    let mut r = String::new();
    let mut i: usize = 0;
    while i < xs.len()
        invariant
            0 <= i <= xs@.len(),
            r@ == field_decls(xs@.subrange(0, i as int), al@),
        decreases xs.len() - i,
    {
        let p = field_decl_exec(&xs[i], al);
        assert(xs@.subrange(0, i + 1).drop_last() =~= xs@.subrange(0, i as int));
        assert(xs@.subrange(0, i + 1).last() == xs@[i as int]);
        r.append(p.as_str());
        i = i + 1;
    }
    assert(xs@.subrange(0, xs@.len() as int) =~= xs@);
    r
}

/// The field encoders, in order.
pub open spec fn field_sers(xs: Seq<Field>, al: Seq<(String, String)>) -> Seq<char>
    decreases xs.len(),
{
    if xs.len() == 0 {
        Seq::empty()
    } else {
        field_sers(xs.drop_last(), al) + field_ser(xs.last(), al)
    }
}

fn field_sers_exec(xs: &Vec<Field>, al: &Vec<(String, String)>) -> (r: String)
    ensures
        r@ == field_sers(xs@, al@),
{
    let mut r = String::new();
    let mut i: usize = 0;
    while i < xs.len()
        invariant
            0 <= i <= xs@.len(),
            r@ == field_sers(xs@.subrange(0, i as int), al@),
        decreases xs.len() - i,
    {
        let p = field_ser_exec(&xs[i], al);
        assert(xs@.subrange(0, i + 1).drop_last() =~= xs@.subrange(0, i as int));
        assert(xs@.subrange(0, i + 1).last() == xs@[i as int]);
        r.append(p.as_str());
        i = i + 1;
    }
    assert(xs@.subrange(0, xs@.len() as int) =~= xs@);
    r
}

/// The field decoders, in order.
pub open spec fn field_des(xs: Seq<Field>, al: Seq<(String, String)>) -> Seq<char>
    decreases xs.len(),
{
    if xs.len() == 0 {
        Seq::empty()
    } else {
        field_des(xs.drop_last(), al) + field_de(xs.last(), al)
    }
}

fn field_des_exec(xs: &Vec<Field>, al: &Vec<(String, String)>) -> (r: String)
    ensures
        r@ == field_des(xs@, al@),
{
    let mut r = String::new();
    let mut i: usize = 0;
    while i < xs.len()
        invariant
            0 <= i <= xs@.len(),
            r@ == field_des(xs@.subrange(0, i as int), al@),
        decreases xs.len() - i,
    {
        let p = field_de_exec(&xs[i], al);
        assert(xs@.subrange(0, i + 1).drop_last() =~= xs@.subrange(0, i as int));
        assert(xs@.subrange(0, i + 1).last() == xs@[i as int]);
        r.append(p.as_str());
        i = i + 1;
    }
    assert(xs@.subrange(0, xs@.len() as int) =~= xs@);
    r
}

/// The fields of the decoded struct literal, in order.
pub open spec fn field_inits(xs: Seq<Field>) -> Seq<char>
    decreases xs.len(),
{
    if xs.len() == 0 {
        Seq::empty()
    } else {
        field_inits(xs.drop_last()) + field_init(xs.last())
    }
}

fn field_inits_exec(xs: &Vec<Field>) -> (r: String)
    ensures
        r@ == field_inits(xs@),
{
    let mut r = String::new();
    let mut i: usize = 0;
    while i < xs.len()
        invariant
            0 <= i <= xs@.len(),
            r@ == field_inits(xs@.subrange(0, i as int)),
        decreases xs.len() - i,
    {
        let p = field_init_exec(&xs[i]);
        assert(xs@.subrange(0, i + 1).drop_last() =~= xs@.subrange(0, i as int));
        assert(xs@.subrange(0, i + 1).last() == xs@[i as int]);
        r.append(p.as_str());
        i = i + 1;
    }
    assert(xs@.subrange(0, xs@.len() as int) =~= xs@);
    r
}

/// The parameters of a generated method, in order.
pub open spec fn arg_decls(xs: Seq<Field>, al: Seq<(String, String)>) -> Seq<char>
    decreases xs.len(),
{
    if xs.len() == 0 {
        Seq::empty()
    } else {
        arg_decls(xs.drop_last(), al) + arg_decl(xs.last(), al)
    }
}

fn arg_decls_exec(xs: &Vec<Field>, al: &Vec<(String, String)>) -> (r: String)
    ensures
        r@ == arg_decls(xs@, al@),
{
    let mut r = String::new();
    let mut i: usize = 0;
    while i < xs.len()
        invariant
            0 <= i <= xs@.len(),
            r@ == arg_decls(xs@.subrange(0, i as int), al@),
        decreases xs.len() - i,
    {
        let p = arg_decl_exec(&xs[i], al);
        assert(xs@.subrange(0, i + 1).drop_last() =~= xs@.subrange(0, i as int));
        assert(xs@.subrange(0, i + 1).last() == xs@[i as int]);
        r.append(p.as_str());
        i = i + 1;
    }
    assert(xs@.subrange(0, xs@.len() as int) =~= xs@);
    r
}

/// The argument encoders of a generated method, in order.
pub open spec fn arg_sers(xs: Seq<Field>, al: Seq<(String, String)>) -> Seq<char>
    decreases xs.len(),
{
    if xs.len() == 0 {
        Seq::empty()
    } else {
        arg_sers(xs.drop_last(), al) + arg_ser(xs.last(), al)
    }
}

fn arg_sers_exec(xs: &Vec<Field>, al: &Vec<(String, String)>) -> (r: String)
    ensures
        r@ == arg_sers(xs@, al@),
{
    let mut r = String::new();
    let mut i: usize = 0;
    while i < xs.len()
        invariant
            0 <= i <= xs@.len(),
            r@ == arg_sers(xs@.subrange(0, i as int), al@),
        decreases xs.len() - i,
    {
        let p = arg_ser_exec(&xs[i], al);
        assert(xs@.subrange(0, i + 1).drop_last() =~= xs@.subrange(0, i as int));
        assert(xs@.subrange(0, i + 1).last() == xs@[i as int]);
        r.append(p.as_str());
        i = i + 1;
    }
    assert(xs@.subrange(0, xs@.len() as int) =~= xs@);
    r
}

/// A payload type in a variant declaration.
pub open spec fn paren_type(t: Seq<char>, al: Seq<(String, String)>) -> Seq<char> {
    "("@ + render_type(t, al) + ")"@
}

fn paren_type_exec(t: &String, al: &Vec<(String, String)>) -> (r: String)
    ensures
        r@ == paren_type(t@, al@),
{
    let mut r = String::from_str("(");
    let t0 = render_type_exec(t.as_str(), al);
    r.append(t0.as_str());
    r.append(")");
    r
}

/// Encodes a variant's payload.
pub open spec fn payload_ser_some(t: Seq<char>, al: Seq<(String, String)>) -> Seq<char> {
    "                __out.extend(<"@ + render_type(t, al) + " as cainome::cairo_serde::CairoSerde>::cairo_serialize(__v));\n"@
}

fn payload_ser_some_exec(t: &String, al: &Vec<(String, String)>) -> (r: String)
    ensures
        r@ == payload_ser_some(t@, al@),
{
    let mut r = String::from_str("                __out.extend(<");
    let t0 = render_type_exec(t.as_str(), al);
    r.append(t0.as_str());
    r.append(" as cainome::cairo_serde::CairoSerde>::cairo_serialize(__v));\n");
    r
}

/// Decodes a variant's payload.
pub open spec fn payload_de_some(t: Seq<char>, al: Seq<(String, String)>) -> Seq<char> {
    "(<"@ + render_type(t, al) + " as cainome::cairo_serde::CairoSerde>::cairo_deserialize(__felts, __offset + 1)?)"@
}

fn payload_de_some_exec(t: &String, al: &Vec<(String, String)>) -> (r: String)
    ensures
        r@ == payload_de_some(t@, al@),
{
    let mut r = String::from_str("(<");
    let t0 = render_type_exec(t.as_str(), al);
    r.append(t0.as_str());
    r.append(" as cainome::cairo_serde::CairoSerde>::cairo_deserialize(__felts, __offset + 1)?)");
    r
}

/// The conversion from an event's payload into the event enum.
pub open spec fn event_conv_some(t: Seq<char>, vn: Seq<char>, n: Seq<char>, al: Seq<(String, String)>) -> Seq<char> {
    "impl From<"@ + render_type(t, al) + "> for "@ + n + " {\n    fn from(__v: "@ + render_type(t, al) + ") -> Self {\n        "@ + n + "::"@ + vn + "(__v)\n    }\n}\n\n"@
}

fn event_conv_some_exec(t: &String, vn: &String, n: &String, al: &Vec<(String, String)>) -> (r: String)
    ensures
        r@ == event_conv_some(t@, vn@, n@, al@),
{
    let mut r = String::from_str("impl From<");
    let t0 = render_type_exec(t.as_str(), al);
    r.append(t0.as_str());
    r.append("> for ");
    let t1 = n.clone();
    r.append(t1.as_str());
    r.append(" {\n    fn from(__v: ");
    let t2 = render_type_exec(t.as_str(), al);
    r.append(t2.as_str());
    r.append(") -> Self {\n        ");
    let t3 = n.clone();
    r.append(t3.as_str());
    r.append("::");
    let t4 = vn.clone();
    r.append(t4.as_str());
    r.append("(__v)\n    }\n}\n\n");
    r
}

/// The payload part of a variant declaration.
pub open spec fn payload_decl(v: Variant, al: Seq<(String, String)>) -> Seq<char> {
    match v.ty {
        Some(t) => paren_type(t@, al),
        None => Seq::empty(),
    }
}

fn payload_decl_exec(v: &Variant, al: &Vec<(String, String)>) -> (r: String)
    ensures
        r@ == payload_decl(*v, al@),
{
    match &v.ty {
        Some(t) => paren_type_exec(t, al),
        None => String::new(),
    }
}

/// The payload encoder of a variant.
pub open spec fn payload_ser(v: Variant, al: Seq<(String, String)>) -> Seq<char> {
    match v.ty {
        Some(t) => payload_ser_some(t@, al),
        None => Seq::empty(),
    }
}

fn payload_ser_exec(v: &Variant, al: &Vec<(String, String)>) -> (r: String)
    ensures
        r@ == payload_ser(*v, al@),
{
    match &v.ty {
        Some(t) => payload_ser_some_exec(t, al),
        None => String::new(),
    }
}

/// The payload decoder of a variant.
pub open spec fn payload_de(v: Variant, al: Seq<(String, String)>) -> Seq<char> {
    match v.ty {
        Some(t) => payload_de_some(t@, al),
        None => Seq::empty(),
    }
}

fn payload_de_exec(v: &Variant, al: &Vec<(String, String)>) -> (r: String)
    ensures
        r@ == payload_de(*v, al@),
{
    match &v.ty {
        Some(t) => payload_de_some_exec(t, al),
        None => String::new(),
    }
}

/// The conversion for one event variant; none for a variant without payload.
pub open spec fn event_conv(v: Variant, n: Seq<char>, al: Seq<(String, String)>) -> Seq<char> {
    match v.ty {
        Some(t) => event_conv_some(t@, v.name@, n, al),
        None => Seq::empty(),
    }
}

fn event_conv_exec(v: &Variant, n: &String, al: &Vec<(String, String)>) -> (r: String)
    ensures
        r@ == event_conv(*v, n@, al@),
{
    match &v.ty {
        Some(t) => event_conv_some_exec(t, &v.name, n, al),
        None => String::new(),
    }
}

/// The binding of a variant's payload in a match arm.
pub open spec fn binder(v: Variant) -> Seq<char> {
    if v.ty is Some {
        "(__v)"@
    } else {
        Seq::empty()
    }
}

fn binder_exec(v: &Variant) -> (r: String)
    ensures
        r@ == binder(*v),
{
    if v.ty.is_some() {
        String::from_str("(__v)")
    } else {
        String::new()
    }
}

/// A variant declaration.
pub open spec fn variant_decl(v: Variant, al: Seq<(String, String)>) -> Seq<char> {
    "    "@ + v.name@ + payload_decl(v, al) + ",\n"@
}

fn variant_decl_exec(v: &Variant, al: &Vec<(String, String)>) -> (r: String)
    ensures
        r@ == variant_decl(*v, al@),
{
    let mut r = String::from_str("    ");
    let t0 = v.name.clone();
    r.append(t0.as_str());
    let t1 = payload_decl_exec(v, al);
    r.append(t1.as_str());
    r.append(",\n");
    r
}

/// The encoder arm of a variant: its index, then its payload.
pub open spec fn variant_ser(v: Variant, k: int, n: Seq<char>, al: Seq<(String, String)>) -> Seq<char> {
    "            "@ + n + "::"@ + v.name@ + binder(v) + " => {\n                __out.push(starknet::core::types::Felt::from("@ + dec(k as nat) + "usize));\n"@ + payload_ser(v, al) + "            }\n"@
}

fn variant_ser_exec(v: &Variant, k: usize, n: &String, al: &Vec<(String, String)>) -> (r: String)
    ensures
        r@ == variant_ser(*v, k as int, n@, al@),
{
    let mut r = String::from_str("            ");
    let t0 = n.clone();
    r.append(t0.as_str());
    r.append("::");
    let t1 = v.name.clone();
    r.append(t1.as_str());
    let t2 = binder_exec(v);
    r.append(t2.as_str());
    r.append(" => {\n                __out.push(starknet::core::types::Felt::from(");
    let t3 = dec_exec(k);
    r.append(t3.as_str());
    r.append("usize));\n");
    let t4 = payload_ser_exec(v, al);
    r.append(t4.as_str());
    r.append("            }\n");
    r
}

/// The decoder arm of a variant, selected by its index.
pub open spec fn variant_de(v: Variant, k: int, n: Seq<char>, al: Seq<(String, String)>) -> Seq<char> {
    "            "@ + dec(k as nat) + " => Ok("@ + n + "::"@ + v.name@ + payload_de(v, al) + "),\n"@
}

fn variant_de_exec(v: &Variant, k: usize, n: &String, al: &Vec<(String, String)>) -> (r: String)
    ensures
        r@ == variant_de(*v, k as int, n@, al@),
{
    let mut r = String::from_str("            ");
    let t0 = dec_exec(k);
    r.append(t0.as_str());
    r.append(" => Ok(");
    let t1 = n.clone();
    r.append(t1.as_str());
    r.append("::");
    let t2 = v.name.clone();
    r.append(t2.as_str());
    let t3 = payload_de_exec(v, al);
    r.append(t3.as_str());
    r.append("),\n");
    r
}

/// The variant declarations, in order.
pub open spec fn variant_decls(xs: Seq<Variant>, al: Seq<(String, String)>) -> Seq<char>
    decreases xs.len(),
{
    if xs.len() == 0 {
        Seq::empty()
    } else {
        variant_decls(xs.drop_last(), al) + variant_decl(xs.last(), al)
    }
}

fn variant_decls_exec(xs: &Vec<Variant>, al: &Vec<(String, String)>) -> (r: String)
    ensures
        r@ == variant_decls(xs@, al@),
{
    let mut r = String::new();
    let mut i: usize = 0;
    while i < xs.len()
        invariant
            0 <= i <= xs@.len(),
            r@ == variant_decls(xs@.subrange(0, i as int), al@),
        decreases xs.len() - i,
    {
        let p = variant_decl_exec(&xs[i], al);
        assert(xs@.subrange(0, i + 1).drop_last() =~= xs@.subrange(0, i as int));
        assert(xs@.subrange(0, i + 1).last() == xs@[i as int]);
        r.append(p.as_str());
        i = i + 1;
    }
    assert(xs@.subrange(0, xs@.len() as int) =~= xs@);
    r
}

/// The encoder arms, in variant order.
pub open spec fn variant_sers(xs: Seq<Variant>, n: Seq<char>, al: Seq<(String, String)>) -> Seq<char>
    decreases xs.len(),
{
    if xs.len() == 0 {
        Seq::empty()
    } else {
        variant_sers(xs.drop_last(), n, al) + variant_ser(xs.last(), (xs.len() - 1), n, al)
    }
}

fn variant_sers_exec(xs: &Vec<Variant>, n: &String, al: &Vec<(String, String)>) -> (r: String)
    ensures
        r@ == variant_sers(xs@, n@, al@),
{
    let mut r = String::new();
    let mut i: usize = 0;
    while i < xs.len()
        invariant
            0 <= i <= xs@.len(),
            r@ == variant_sers(xs@.subrange(0, i as int), n@, al@),
        decreases xs.len() - i,
    {
        let p = variant_ser_exec(&xs[i], i, n, al);
        assert(xs@.subrange(0, i + 1).drop_last() =~= xs@.subrange(0, i as int));
        assert(xs@.subrange(0, i + 1).last() == xs@[i as int]);
        r.append(p.as_str());
        i = i + 1;
    }
    assert(xs@.subrange(0, xs@.len() as int) =~= xs@);
    r
}

/// The decoder arms, in variant order.
pub open spec fn variant_des(xs: Seq<Variant>, n: Seq<char>, al: Seq<(String, String)>) -> Seq<char>
    decreases xs.len(),
{
    if xs.len() == 0 {
        Seq::empty()
    } else {
        variant_des(xs.drop_last(), n, al) + variant_de(xs.last(), (xs.len() - 1), n, al)
    }
}

fn variant_des_exec(xs: &Vec<Variant>, n: &String, al: &Vec<(String, String)>) -> (r: String)
    ensures
        r@ == variant_des(xs@, n@, al@),
{
    let mut r = String::new();
    let mut i: usize = 0;
    while i < xs.len()
        invariant
            0 <= i <= xs@.len(),
            r@ == variant_des(xs@.subrange(0, i as int), n@, al@),
        decreases xs.len() - i,
    {
        let p = variant_de_exec(&xs[i], i, n, al);
        assert(xs@.subrange(0, i + 1).drop_last() =~= xs@.subrange(0, i as int));
        assert(xs@.subrange(0, i + 1).last() == xs@[i as int]);
        r.append(p.as_str());
        i = i + 1;
    }
    assert(xs@.subrange(0, xs@.len() as int) =~= xs@);
    r
}

/// The conversions of an event enum, in variant order.
pub open spec fn event_convs(xs: Seq<Variant>, n: Seq<char>, al: Seq<(String, String)>) -> Seq<char>
    decreases xs.len(),
{
    if xs.len() == 0 {
        Seq::empty()
    } else {
        event_convs(xs.drop_last(), n, al) + event_conv(xs.last(), n, al)
    }
}

fn event_convs_exec(xs: &Vec<Variant>, n: &String, al: &Vec<(String, String)>) -> (r: String)
    ensures
        r@ == event_convs(xs@, n@, al@),
{
    let mut r = String::new();
    let mut i: usize = 0;
    while i < xs.len()
        invariant
            0 <= i <= xs@.len(),
            r@ == event_convs(xs@.subrange(0, i as int), n@, al@),
        decreases xs.len() - i,
    {
        let p = event_conv_exec(&xs[i], n, al);
        assert(xs@.subrange(0, i + 1).drop_last() =~= xs@.subrange(0, i as int));
        assert(xs@.subrange(0, i + 1).last() == xs@[i as int]);
        r.append(p.as_str());
        i = i + 1;
    }
    assert(xs@.subrange(0, xs@.len() as int) =~= xs@);
    r
}

/// The declaration of a struct: its fields in declaration order.
pub open spec fn struct_decl(s: StructDecl, al: Seq<(String, String)>) -> Seq<char> {
    "#[derive(Debug, PartialEq, PartialOrd, Clone)]\npub struct "@ + name_of(decl_key(s.path@), al) + " {\n"@ + field_decls(s.fields@, al) + "}\n\n"@
}

pub fn struct_decl_exec(s: &StructDecl, al: &Vec<(String, String)>) -> (r: String)
    ensures
        r@ == struct_decl(*s, al@),
{
    let mut r = String::from_str("#[derive(Debug, PartialEq, PartialOrd, Clone)]\npub struct ");
    let t0 = path_name(decl_key_exec(s.path.as_str()).as_str(), al);
    r.append(t0.as_str());
    r.append(" {\n");
    let t1 = field_decls_exec(&s.fields, al);
    r.append(t1.as_str());
    r.append("}\n\n");
    r
}

/// The wire encoding of a struct, field by field in declaration order.
pub open spec fn struct_impl(s: StructDecl, al: Seq<(String, String)>) -> Seq<char> {
    "impl cainome::cairo_serde::CairoSerde for "@ + name_of(decl_key(s.path@), al) + " {\n    type RustType = Self;\n    const SERIALIZED_SIZE: std::option::Option<usize> = None;\n\n    fn cairo_serialized_size(__rust: &Self::RustType) -> usize {\n        Self::cairo_serialize(__rust).len()\n    }\n\n    fn cairo_serialize(__rust: &Self::RustType) -> Vec<starknet::core::types::Felt> {\n        let mut __out: Vec<starknet::core::types::Felt> = vec![];\n"@ + field_sers(s.fields@, al) + "        __out\n    }\n\n    fn cairo_deserialize(__felts: &[starknet::core::types::Felt], __offset: usize) -> cainome::cairo_serde::Result<Self::RustType> {\n        let mut __offset = __offset;\n"@ + field_des(s.fields@, al) + "        Ok("@ + name_of(decl_key(s.path@), al) + " {\n"@ + field_inits(s.fields@) + "        })\n    }\n}\n\n"@
}

fn struct_impl_exec(s: &StructDecl, al: &Vec<(String, String)>) -> (r: String)
    ensures
        r@ == struct_impl(*s, al@),
{
    let mut r = String::from_str("impl cainome::cairo_serde::CairoSerde for ");
    let t0 = path_name(decl_key_exec(s.path.as_str()).as_str(), al);
    r.append(t0.as_str());
    r.append(" {\n    type RustType = Self;\n    const SERIALIZED_SIZE: std::option::Option<usize> = None;\n\n    fn cairo_serialized_size(__rust: &Self::RustType) -> usize {\n        Self::cairo_serialize(__rust).len()\n    }\n\n    fn cairo_serialize(__rust: &Self::RustType) -> Vec<starknet::core::types::Felt> {\n        let mut __out: Vec<starknet::core::types::Felt> = vec![];\n");
    let t1 = field_sers_exec(&s.fields, al);
    r.append(t1.as_str());
    r.append("        __out\n    }\n\n    fn cairo_deserialize(__felts: &[starknet::core::types::Felt], __offset: usize) -> cainome::cairo_serde::Result<Self::RustType> {\n        let mut __offset = __offset;\n");
    let t2 = field_des_exec(&s.fields, al);
    r.append(t2.as_str());
    r.append("        Ok(");
    let t3 = path_name(decl_key_exec(s.path.as_str()).as_str(), al);
    r.append(t3.as_str());
    r.append(" {\n");
    let t4 = field_inits_exec(&s.fields);
    r.append(t4.as_str());
    r.append("        })\n    }\n}\n\n");
    r
}

/// The declaration of an enum: its variants in declaration order.
pub open spec fn enum_decl(e: EnumDecl, al: Seq<(String, String)>) -> Seq<char> {
    "#[derive(Debug, PartialEq, PartialOrd, Clone)]\npub enum "@ + name_of(decl_key(e.path@), al) + " {\n"@ + variant_decls(e.variants@, al) + "}\n\n"@
}

pub fn enum_decl_exec(e: &EnumDecl, al: &Vec<(String, String)>) -> (r: String)
    ensures
        r@ == enum_decl(*e, al@),
{
    let mut r = String::from_str("#[derive(Debug, PartialEq, PartialOrd, Clone)]\npub enum ");
    let t0 = path_name(decl_key_exec(e.path.as_str()).as_str(), al);
    r.append(t0.as_str());
    r.append(" {\n");
    let t1 = variant_decls_exec(&e.variants, al);
    r.append(t1.as_str());
    r.append("}\n\n");
    r
}

/// The wire encoding of an enum: the variant's index, then its payload.
pub open spec fn enum_impl(e: EnumDecl, al: Seq<(String, String)>) -> Seq<char> {
    "impl cainome::cairo_serde::CairoSerde for "@ + name_of(decl_key(e.path@), al) + " {\n    type RustType = Self;\n    const SERIALIZED_SIZE: std::option::Option<usize> = None;\n\n    fn cairo_serialized_size(__rust: &Self::RustType) -> usize {\n        Self::cairo_serialize(__rust).len()\n    }\n\n    fn cairo_serialize(__rust: &Self::RustType) -> Vec<starknet::core::types::Felt> {\n        let mut __out: Vec<starknet::core::types::Felt> = vec![];\n        match __rust {\n"@ + variant_sers(e.variants@, name_of(decl_key(e.path@), al), al) + "        }\n        __out\n    }\n\n    fn cairo_deserialize(__felts: &[starknet::core::types::Felt], __offset: usize) -> cainome::cairo_serde::Result<Self::RustType> {\n        let __index = u128::from_be_bytes(__felts[__offset].to_bytes_be()[16..].try_into().unwrap());\n        match __index as usize {\n"@ + variant_des(e.variants@, name_of(decl_key(e.path@), al), al) + "            _ => Err(cainome::cairo_serde::Error::Deserialize(format!(\"Index not handled for enum {}\", __index))),\n        }\n    }\n}\n\n"@
}

fn enum_impl_exec(e: &EnumDecl, al: &Vec<(String, String)>) -> (r: String)
    ensures
        r@ == enum_impl(*e, al@),
{
    let mut r = String::from_str("impl cainome::cairo_serde::CairoSerde for ");
    let t0 = path_name(decl_key_exec(e.path.as_str()).as_str(), al);
    r.append(t0.as_str());
    r.append(" {\n    type RustType = Self;\n    const SERIALIZED_SIZE: std::option::Option<usize> = None;\n\n    fn cairo_serialized_size(__rust: &Self::RustType) -> usize {\n        Self::cairo_serialize(__rust).len()\n    }\n\n    fn cairo_serialize(__rust: &Self::RustType) -> Vec<starknet::core::types::Felt> {\n        let mut __out: Vec<starknet::core::types::Felt> = vec![];\n        match __rust {\n");
    let t1 = variant_sers_exec(&e.variants, &path_name(decl_key_exec(e.path.as_str()).as_str(), al), al);
    r.append(t1.as_str());
    r.append("        }\n        __out\n    }\n\n    fn cairo_deserialize(__felts: &[starknet::core::types::Felt], __offset: usize) -> cainome::cairo_serde::Result<Self::RustType> {\n        let __index = u128::from_be_bytes(__felts[__offset].to_bytes_be()[16..].try_into().unwrap());\n        match __index as usize {\n");
    let t2 = variant_des_exec(&e.variants, &path_name(decl_key_exec(e.path.as_str()).as_str(), al), al);
    r.append(t2.as_str());
    r.append("            _ => Err(cainome::cairo_serde::Error::Deserialize(format!(\"Index not handled for enum {}\", __index))),\n        }\n    }\n}\n\n");
    r
}

/// The event conversions of an enum, if it is an event.
pub open spec fn enum_events(e: EnumDecl, al: Seq<(String, String)>) -> Seq<char> {
    if e.is_event {
        event_convs(e.variants@, name_of(decl_key(e.path@), al), al)
    } else {
        Seq::empty()
    }
}

fn enum_events_exec(e: &EnumDecl, al: &Vec<(String, String)>) -> (r: String)
    ensures
        r@ == enum_events(*e, al@),
{
    if e.is_event {
        event_convs_exec(&e.variants, &path_name(decl_key_exec(e.path.as_str()).as_str(), al), al)
    } else {
        String::new()
    }
}

/// Everything generated for one struct.
pub open spec fn struct_item(s: StructDecl, al: Seq<(String, String)>) -> Seq<char> {
    ""@ + struct_decl(s, al) + struct_impl(s, al)
}

fn struct_item_exec(s: &StructDecl, al: &Vec<(String, String)>) -> (r: String)
    ensures
        r@ == struct_item(*s, al@),
{
    let mut r = String::from_str("");
    let t0 = struct_decl_exec(s, al);
    r.append(t0.as_str());
    let t1 = struct_impl_exec(s, al);
    r.append(t1.as_str());
    r
}

/// Everything generated for one enum.
pub open spec fn enum_item(e: EnumDecl, al: Seq<(String, String)>) -> Seq<char> {
    ""@ + enum_decl(e, al) + enum_impl(e, al) + enum_events(e, al)
}

fn enum_item_exec(e: &EnumDecl, al: &Vec<(String, String)>) -> (r: String)
    ensures
        r@ == enum_item(*e, al@),
{
    let mut r = String::from_str("");
    let t0 = enum_decl_exec(e, al);
    r.append(t0.as_str());
    let t1 = enum_impl_exec(e, al);
    r.append(t1.as_str());
    let t2 = enum_events_exec(e, al);
    r.append(t2.as_str());
    r
}

/// The generated structs, in model order.
pub open spec fn structs_text(xs: Seq<StructDecl>, al: Seq<(String, String)>) -> Seq<char>
    decreases xs.len(),
{
    if xs.len() == 0 {
        Seq::empty()
    } else {
        structs_text(xs.drop_last(), al) + struct_item(xs.last(), al)
    }
}

fn structs_text_exec(xs: &Vec<StructDecl>, al: &Vec<(String, String)>) -> (r: String)
    ensures
        r@ == structs_text(xs@, al@),
{
    let mut r = String::new();
    let mut i: usize = 0;
    while i < xs.len()
        invariant
            0 <= i <= xs@.len(),
            r@ == structs_text(xs@.subrange(0, i as int), al@),
        decreases xs.len() - i,
    {
        let p = struct_item_exec(&xs[i], al);
        assert(xs@.subrange(0, i + 1).drop_last() =~= xs@.subrange(0, i as int));
        assert(xs@.subrange(0, i + 1).last() == xs@[i as int]);
        r.append(p.as_str());
        i = i + 1;
    }
    assert(xs@.subrange(0, xs@.len() as int) =~= xs@);
    r
}

/// The generated enums, in model order.
pub open spec fn enums_text(xs: Seq<EnumDecl>, al: Seq<(String, String)>) -> Seq<char>
    decreases xs.len(),
{
    if xs.len() == 0 {
        Seq::empty()
    } else {
        enums_text(xs.drop_last(), al) + enum_item(xs.last(), al)
    }
}

fn enums_text_exec(xs: &Vec<EnumDecl>, al: &Vec<(String, String)>) -> (r: String)
    ensures
        r@ == enums_text(xs@, al@),
{
    let mut r = String::new();
    let mut i: usize = 0;
    while i < xs.len()
        invariant
            0 <= i <= xs@.len(),
            r@ == enums_text(xs@.subrange(0, i as int), al@),
        decreases xs.len() - i,
    {
        let p = enum_item_exec(&xs[i], al);
        assert(xs@.subrange(0, i + 1).drop_last() =~= xs@.subrange(0, i as int));
        assert(xs@.subrange(0, i + 1).last() == xs@[i as int]);
        r.append(p.as_str());
        i = i + 1;
    }
    assert(xs@.subrange(0, xs@.len() as int) =~= xs@);
    r
}

/// The result type of a generated read: unit, or the function's first output.
pub open spec fn out_type(outs: Seq<String>, al: Seq<(String, String)>) -> Seq<char> {
    if outs.len() == 0 {
        "()"@
    } else {
        render_type(outs[0]@, al)
    }
}

fn out_type_exec(outs: &Vec<String>, al: &Vec<(String, String)>) -> (r: String)
    ensures
        r@ == out_type(outs@, al@),
{
    if outs.len() == 0 {
        String::from_str("()")
    } else {
        render_type_exec(outs[0].as_str(), al)
    }
}

/// The provider type that a read goes through on either surface.
pub open spec fn provider_ty(reader: bool) -> Seq<char> {
    if reader {
        "P"@
    } else {
        "A::Provider"@
    }
}

fn provider_ty_exec(reader: bool) -> (r: String)
    ensures
        r@ == provider_ty(reader),
{
    if reader {
        String::from_str("P")
    } else {
        String::from_str("A::Provider")
    }
}

/// The provider expression that a read goes through on either surface.
pub open spec fn provider_expr(reader: bool) -> Seq<char> {
    if reader {
        "&self.provider"@
    } else {
        "self.provider()"@
    }
}

fn provider_expr_exec(reader: bool) -> (r: String)
    ensures
        r@ == provider_expr(reader),
{
    if reader {
        String::from_str("&self.provider")
    } else {
        String::from_str("self.provider()")
    }
}

/// The transaction type of a state-changing call under each execution version.
pub open spec fn execution_ty(v: ExecutionVersion) -> Seq<char> {
    match v {
        ExecutionVersion::V1 => "ExecutionV1"@,
        ExecutionVersion::V3 => "ExecutionV3"@,
    }
}

fn execution_ty_exec(v: ExecutionVersion) -> (r: String)
    ensures
        r@ == execution_ty(v),
{
    match v {
        ExecutionVersion::V1 => String::from_str("ExecutionV1"),
        ExecutionVersion::V3 => String::from_str("ExecutionV3"),
    }
}

/// The account method that builds a transaction under each execution version.
pub open spec fn execution_call(v: ExecutionVersion) -> Seq<char> {
    match v {
        ExecutionVersion::V1 => "execute_v1"@,
        ExecutionVersion::V3 => "execute_v3"@,
    }
}

fn execution_call_exec(v: ExecutionVersion) -> (r: String)
    ensures
        r@ == execution_call(v),
{
    match v {
        ExecutionVersion::V1 => String::from_str("execute_v1"),
        ExecutionVersion::V3 => String::from_str("execute_v3"),
    }
}

/// A read method: it builds a call and never a transaction.
pub open spec fn view_fn(f: FunctionDecl, al: Seq<(String, String)>, reader: bool) -> Seq<char> {
    "    pub fn "@ + f.name@ + "(&self"@ + arg_decls(f.inputs@, al) + ") -> cainome::cairo_serde::call::FCall<"@ + provider_ty(reader) + ", "@ + out_type(f.outputs@, al) + "> {\n        let mut __calldata: Vec<starknet::core::types::Felt> = vec![];\n"@ + arg_sers(f.inputs@, al) + "        let __call = starknet::core::types::FunctionCall {\n            contract_address: self.address,\n            entry_point_selector: starknet::macros::selector!(\""@ + f.name@ + "\"),\n            calldata: __calldata,\n        };\n        cainome::cairo_serde::call::FCall::new(__call, "@ + provider_expr(reader) + ")\n    }\n\n"@
}

fn view_fn_exec(f: &FunctionDecl, al: &Vec<(String, String)>, reader: bool) -> (r: String)
    ensures
        r@ == view_fn(*f, al@, reader),
{
    let mut r = String::from_str("    pub fn ");
    let t0 = f.name.clone();
    r.append(t0.as_str());
    r.append("(&self");
    let t1 = arg_decls_exec(&f.inputs, al);
    r.append(t1.as_str());
    r.append(") -> cainome::cairo_serde::call::FCall<");
    let t2 = provider_ty_exec(reader);
    r.append(t2.as_str());
    r.append(", ");
    let t3 = out_type_exec(&f.outputs, al);
    r.append(t3.as_str());
    r.append("> {\n        let mut __calldata: Vec<starknet::core::types::Felt> = vec![];\n");
    let t4 = arg_sers_exec(&f.inputs, al);
    r.append(t4.as_str());
    r.append("        let __call = starknet::core::types::FunctionCall {\n            contract_address: self.address,\n            entry_point_selector: starknet::macros::selector!(\"");
    let t5 = f.name.clone();
    r.append(t5.as_str());
    r.append("\"),\n            calldata: __calldata,\n        };\n        cainome::cairo_serde::call::FCall::new(__call, ");
    let t6 = provider_expr_exec(reader);
    r.append(t6.as_str());
    r.append(")\n    }\n\n");
    r
}

/// A state-changing method: it builds a transaction of the chosen version.
pub open spec fn external_fn(f: FunctionDecl, al: Seq<(String, String)>, v: ExecutionVersion) -> Seq<char> {
    "    pub fn "@ + f.name@ + "(&self"@ + arg_decls(f.inputs@, al) + ") -> starknet::accounts::"@ + execution_ty(v) + "<A> {\n        let mut __calldata: Vec<starknet::core::types::Felt> = vec![];\n"@ + arg_sers(f.inputs@, al) + "        let __call = starknet::core::types::Call {\n            to: self.address,\n            selector: starknet::macros::selector!(\""@ + f.name@ + "\"),\n            calldata: __calldata,\n        };\n        self.account."@ + execution_call(v) + "(vec![__call])\n    }\n\n"@
}

fn external_fn_exec(f: &FunctionDecl, al: &Vec<(String, String)>, v: ExecutionVersion) -> (r: String)
    ensures
        r@ == external_fn(*f, al@, v),
{
    let mut r = String::from_str("    pub fn ");
    let t0 = f.name.clone();
    r.append(t0.as_str());
    r.append("(&self");
    let t1 = arg_decls_exec(&f.inputs, al);
    r.append(t1.as_str());
    r.append(") -> starknet::accounts::");
    let t2 = execution_ty_exec(v);
    r.append(t2.as_str());
    r.append("<A> {\n        let mut __calldata: Vec<starknet::core::types::Felt> = vec![];\n");
    let t3 = arg_sers_exec(&f.inputs, al);
    r.append(t3.as_str());
    r.append("        let __call = starknet::core::types::Call {\n            to: self.address,\n            selector: starknet::macros::selector!(\"");
    let t4 = f.name.clone();
    r.append(t4.as_str());
    r.append("\"),\n            calldata: __calldata,\n        };\n        self.account.");
    let t5 = execution_call_exec(v);
    r.append(t5.as_str());
    r.append("(vec![__call])\n    }\n\n");
    r
}

/// What a function contributes to a read surface: a read method if it is a view.
pub open spec fn view_item(f: FunctionDecl, al: Seq<(String, String)>, reader: bool) -> Seq<char> {
    if f.state_mutability == StateMutability::View {
        view_fn(f, al, reader)
    } else {
        Seq::empty()
    }
}

fn view_item_exec(f: &FunctionDecl, al: &Vec<(String, String)>, reader: bool) -> (r: String)
    ensures
        r@ == view_item(*f, al@, reader),
{
    match f.state_mutability {
        StateMutability::View => view_fn_exec(f, al, reader),
        StateMutability::External => String::new(),
    }
}

/// What a function contributes as a state-changing method: one if it is external.
pub open spec fn external_item(f: FunctionDecl, al: Seq<(String, String)>, v: ExecutionVersion) -> Seq<char> {
    if f.state_mutability == StateMutability::External {
        external_fn(f, al, v)
    } else {
        Seq::empty()
    }
}

fn external_item_exec(f: &FunctionDecl, al: &Vec<(String, String)>, v: ExecutionVersion) -> (r: String)
    ensures
        r@ == external_item(*f, al@, v),
{
    match f.state_mutability {
        StateMutability::View => String::new(),
        StateMutability::External => external_fn_exec(f, al, v),
    }
}

/// The read methods of a list of functions, in order.
pub open spec fn views_text(xs: Seq<FunctionDecl>, al: Seq<(String, String)>, reader: bool) -> Seq<char>
    decreases xs.len(),
{
    if xs.len() == 0 {
        Seq::empty()
    } else {
        views_text(xs.drop_last(), al, reader) + view_item(xs.last(), al, reader)
    }
}

fn views_text_exec(xs: &Vec<FunctionDecl>, al: &Vec<(String, String)>, reader: bool) -> (r: String)
    ensures
        r@ == views_text(xs@, al@, reader),
{
    let mut r = String::new();
    let mut i: usize = 0;
    while i < xs.len()
        invariant
            0 <= i <= xs@.len(),
            r@ == views_text(xs@.subrange(0, i as int), al@, reader),
        decreases xs.len() - i,
    {
        let p = view_item_exec(&xs[i], al, reader);
        assert(xs@.subrange(0, i + 1).drop_last() =~= xs@.subrange(0, i as int));
        assert(xs@.subrange(0, i + 1).last() == xs@[i as int]);
        r.append(p.as_str());
        i = i + 1;
    }
    assert(xs@.subrange(0, xs@.len() as int) =~= xs@);
    r
}

/// The state-changing methods of a list of functions, in order.
pub open spec fn externals_text(xs: Seq<FunctionDecl>, al: Seq<(String, String)>, v: ExecutionVersion) -> Seq<char>
    decreases xs.len(),
{
    if xs.len() == 0 {
        Seq::empty()
    } else {
        externals_text(xs.drop_last(), al, v) + external_item(xs.last(), al, v)
    }
}

fn externals_text_exec(xs: &Vec<FunctionDecl>, al: &Vec<(String, String)>, v: ExecutionVersion) -> (r: String)
    ensures
        r@ == externals_text(xs@, al@, v),
{
    let mut r = String::new();
    let mut i: usize = 0;
    while i < xs.len()
        invariant
            0 <= i <= xs@.len(),
            r@ == externals_text(xs@.subrange(0, i as int), al@, v),
        decreases xs.len() - i,
    {
        let p = external_item_exec(&xs[i], al, v);
        assert(xs@.subrange(0, i + 1).drop_last() =~= xs@.subrange(0, i as int));
        assert(xs@.subrange(0, i + 1).last() == xs@[i as int]);
        r.append(p.as_str());
        i = i + 1;
    }
    assert(xs@.subrange(0, xs@.len() as int) =~= xs@);
    r
}

/// The read methods of every interface, group after group.
pub open spec fn group_views(gs: Seq<(String, Seq<FunctionDecl>)>, al: Seq<(String, String)>, reader: bool) -> Seq<char>
    decreases gs.len(),
{
    if gs.len() == 0 {
        Seq::empty()
    } else {
        group_views(gs.drop_last(), al, reader) + views_text(gs.last().1, al, reader)
    }
}

fn group_views_exec(gs: &Vec<(String, Vec<FunctionDecl>)>, al: &Vec<(String, String)>, reader: bool) -> (r: String)
    ensures
        r@ == group_views(gs@.map_values(|g: (String, Vec<FunctionDecl>)| (g.0, g.1@)), al@, reader),
{
    let ghost ms = gs@.map_values(|g: (String, Vec<FunctionDecl>)| (g.0, g.1@));
    let mut r = String::new();
    let mut i: usize = 0;
    while i < gs.len()
        invariant
            0 <= i <= gs@.len(),
            ms == gs@.map_values(|g: (String, Vec<FunctionDecl>)| (g.0, g.1@)),
            r@ == group_views(ms.subrange(0, i as int), al@, reader),
        decreases gs.len() - i,
    {
        let p = views_text_exec(&gs[i].1, al, reader);
        assert(ms.subrange(0, i + 1).drop_last() =~= ms.subrange(0, i as int));
        assert(ms.subrange(0, i + 1).last().1 == gs@[i as int].1@);
        r.append(p.as_str());
        i = i + 1;
    }
    assert(ms.subrange(0, ms.len() as int) =~= ms);
    r
}

/// The state-changing methods of every interface, group after group.
pub open spec fn group_externals(gs: Seq<(String, Seq<FunctionDecl>)>, al: Seq<(String, String)>, v: ExecutionVersion) -> Seq<char>
    decreases gs.len(),
{
    if gs.len() == 0 {
        Seq::empty()
    } else {
        group_externals(gs.drop_last(), al, v) + externals_text(gs.last().1, al, v)
    }
}

fn group_externals_exec(gs: &Vec<(String, Vec<FunctionDecl>)>, al: &Vec<(String, String)>, v: ExecutionVersion) -> (r: String)
    ensures
        r@ == group_externals(gs@.map_values(|g: (String, Vec<FunctionDecl>)| (g.0, g.1@)), al@, v),
{
    let ghost ms = gs@.map_values(|g: (String, Vec<FunctionDecl>)| (g.0, g.1@));
    let mut r = String::new();
    let mut i: usize = 0;
    while i < gs.len()
        invariant
            0 <= i <= gs@.len(),
            ms == gs@.map_values(|g: (String, Vec<FunctionDecl>)| (g.0, g.1@)),
            r@ == group_externals(ms.subrange(0, i as int), al@, v),
        decreases gs.len() - i,
    {
        let p = externals_text_exec(&gs[i].1, al, v);
        assert(ms.subrange(0, i + 1).drop_last() =~= ms.subrange(0, i as int));
        assert(ms.subrange(0, i + 1).last().1 == gs@[i as int].1@);
        r.append(p.as_str());
        i = i + 1;
    }
    assert(ms.subrange(0, ms.len() as int) =~= ms);
    r
}

/// The contract type, over an account, and its reader type, over a provider.
pub open spec fn contract_decl(n: Seq<char>) -> Seq<char> {
    "#[derive(Debug)]\npub struct "@ + n + "<A: starknet::accounts::ConnectedAccount + Sync> {\n    pub address: starknet::core::types::Felt,\n    pub account: A,\n}\n\nimpl<A: starknet::accounts::ConnectedAccount + Sync> "@ + n + "<A> {\n    pub fn new(address: starknet::core::types::Felt, account: A) -> Self {\n        Self { address, account }\n    }\n\n    pub fn provider(&self) -> &A::Provider {\n        self.account.provider()\n    }\n}\n\n#[derive(Debug)]\npub struct "@ + n + "Reader<P: starknet::providers::Provider + Sync> {\n    pub address: starknet::core::types::Felt,\n    pub provider: P,\n}\n\nimpl<P: starknet::providers::Provider + Sync> "@ + n + "Reader<P> {\n    pub fn new(address: starknet::core::types::Felt, provider: P) -> Self {\n        Self { address, provider }\n    }\n}\n\n"@
}

fn contract_decl_exec(n: &String) -> (r: String)
    ensures
        r@ == contract_decl(n@),
{
    let mut r = String::from_str("#[derive(Debug)]\npub struct ");
    let t0 = n.clone();
    r.append(t0.as_str());
    r.append("<A: starknet::accounts::ConnectedAccount + Sync> {\n    pub address: starknet::core::types::Felt,\n    pub account: A,\n}\n\nimpl<A: starknet::accounts::ConnectedAccount + Sync> ");
    let t1 = n.clone();
    r.append(t1.as_str());
    r.append("<A> {\n    pub fn new(address: starknet::core::types::Felt, account: A) -> Self {\n        Self { address, account }\n    }\n\n    pub fn provider(&self) -> &A::Provider {\n        self.account.provider()\n    }\n}\n\n#[derive(Debug)]\npub struct ");
    let t2 = n.clone();
    r.append(t2.as_str());
    r.append("Reader<P: starknet::providers::Provider + Sync> {\n    pub address: starknet::core::types::Felt,\n    pub provider: P,\n}\n\nimpl<P: starknet::providers::Provider + Sync> ");
    let t3 = n.clone();
    r.append(t3.as_str());
    r.append("Reader<P> {\n    pub fn new(address: starknet::core::types::Felt, provider: P) -> Self {\n        Self { address, provider }\n    }\n}\n\n");
    r
}

/// The whole generated source: the contract and reader types, every struct and enum, then the methods. Functions of interfaces join the top-level ones; views go on both types, external functions on the contract type only.
pub open spec fn bindings_text(n: Seq<char>, m: AbiModel, al: Seq<(String, String)>, v: ExecutionVersion) -> Seq<char> {
    ""@ + contract_decl(n) + structs_text(m.structs, al) + enums_text(m.enums, al) + "impl<A: starknet::accounts::ConnectedAccount + Sync> "@ + n + "<A> {\n"@ + views_text(m.functions, al, false) + group_views(m.interfaces, al, false) + externals_text(m.functions, al, v) + group_externals(m.interfaces, al, v) + "}\n\nimpl<P: starknet::providers::Provider + Sync> "@ + n + "Reader<P> {\n"@ + views_text(m.functions, al, true) + group_views(m.interfaces, al, true) + "}\n"@
}

pub fn bindings_text_exec(n: &String, t: &TokenizedAbi, al: &Vec<(String, String)>, v: ExecutionVersion) -> (r: String)
    ensures
        r@ == bindings_text(n@, t@, al@, v),
{
    let mut r = String::from_str("");
    let t0 = contract_decl_exec(n);
    r.append(t0.as_str());
    let t1 = structs_text_exec(&t.structs, al);
    r.append(t1.as_str());
    let t2 = enums_text_exec(&t.enums, al);
    r.append(t2.as_str());
    r.append("impl<A: starknet::accounts::ConnectedAccount + Sync> ");
    let t3 = n.clone();
    r.append(t3.as_str());
    r.append("<A> {\n");
    let t4 = views_text_exec(&t.functions, al, false);
    r.append(t4.as_str());
    let t5 = group_views_exec(&t.interfaces, al, false);
    r.append(t5.as_str());
    let t6 = externals_text_exec(&t.functions, al, v);
    r.append(t6.as_str());
    let t7 = group_externals_exec(&t.interfaces, al, v);
    r.append(t7.as_str());
    r.append("}\n\nimpl<P: starknet::providers::Provider + Sync> ");
    let t8 = n.clone();
    r.append(t8.as_str());
    r.append("Reader<P> {\n");
    let t9 = views_text_exec(&t.functions, al, true);
    r.append(t9.as_str());
    let t10 = group_views_exec(&t.interfaces, al, true);
    r.append(t10.as_str());
    r.append("}\n");
    r
}

} // verus!
