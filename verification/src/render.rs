//! The source renderer: from an identifier and two lists of tags to the text
//! of a small program.
//!
//! The program declares the eight marker types, defines a function whose
//! formal parameters are the parameter list, and defines a second function
//! that calls the first with the argument list. Nothing asks the two lists to
//! agree: a call that does not type-check is the point.

use crate::decimal::{decimal, lemma_decimal_injective, push_decimal};
use vstd::prelude::*;
use vstd::string::StringExecFns;

verus! {

/// The declarations of the marker types, up to the first function.
pub const PREAMBLE: &'static str =
    "\n        struct S1;\n        struct S2;\n        struct S3;\n        struct S4;\n        struct S5;\n        struct S6;\n        struct S7;\n        struct S8;\n        \n        ";

/// What stands between the two functions.
pub const INTERLUDE: &'static str = ") {}\n        \n        ";

/// What closes the program.
pub const EPILOGUE: &'static str = "); }\n    ";

/// What separates the entries of a rendered list.
pub const SEPARATOR: &'static str = ", ";

/// What a formal parameter starts with: a discarded name and the marker
/// types' common letter.
pub const PARAMETER_PREFIX: &'static str = "_: S";

/// What an argument starts with: the marker types' common letter.
pub const ARGUMENT_PREFIX: &'static str = "S";

/// What the generated function's name starts with.
pub const CALLEE_STEM: &'static str = "foo";

/// What the name of the function with the call site starts with.
pub const CALLER_STEM: &'static str = "test";

/// What the staged file's name starts with.
pub const FILE_STEM: &'static str = "fuzz";

/// What the staged file's name ends with.
pub const FILE_EXTENSION: &'static str = ".rs";

/// `items` written one after another with `separator` between neighbours.
pub open spec fn joined(items: Seq<Seq<char>>, separator: Seq<char>) -> Seq<char>
    decreases items.len(),
{
    if items.len() == 0 {
        Seq::empty()
    } else if items.len() == 1 {
        items[0]
    } else {
        joined(items.drop_last(), separator) + separator + items.last()
    }
}

/// A list of tags as text: each tag as `prefix` and its numeral, the entries
/// separated by a comma and a space.
pub open spec fn list_text(list: Seq<u8>, prefix: Seq<char>) -> Seq<char> {
    joined(list.map_values(|tag: u8| prefix + decimal(tag as nat)), SEPARATOR@)
}

/// The name of the generated function of case `id`.
pub open spec fn callee_name(id: nat) -> Seq<char> {
    CALLEE_STEM@ + decimal(id)
}

/// The name of the function that holds the call site of case `id`.
pub open spec fn caller_name(id: nat) -> Seq<char> {
    CALLER_STEM@ + decimal(id)
}

/// The program of case `id`: the marker types, the generated function with
/// `parameters` as its formal parameters and an empty body, and a second
/// function whose body is one call of the first with `arguments`.
pub open spec fn source_text(id: nat, parameters: Seq<u8>, arguments: Seq<u8>) -> Seq<char> {
    PREAMBLE@ + "fn "@ + callee_name(id) + "("@ + list_text(parameters, PARAMETER_PREFIX@)
        + INTERLUDE@ + "fn "@ + caller_name(id) + "() { "@ + callee_name(id) + "("@ + list_text(
        arguments,
        ARGUMENT_PREFIX@,
    ) + EPILOGUE@
}

/// The name of the file that case `id` is staged in.
pub open spec fn file_name(id: nat) -> Seq<char> {
    FILE_STEM@ + decimal(id) + FILE_EXTENSION@
}

/// Appends a list of tags to `out`.
fn push_list(out: &mut String, list: &Vec<u8>, prefix: &str)
    ensures
        final(out)@ == old(out)@ + list_text(list@, prefix@),
{
    let ghost items = list@.map_values(|tag: u8| prefix@ + decimal(tag as nat));
    let mut done: usize = 0;
    while done < list.len()
        invariant
            done <= list.len(),
            items == list@.map_values(|tag: u8| prefix@ + decimal(tag as nat)),
            out@ == old(out)@ + joined(items.take(done as int), SEPARATOR@),
        decreases list.len() - done,
    {
        if done > 0 {
            out.append(SEPARATOR);
        }
        out.append(prefix);
        push_decimal(out, list[done] as usize);
        proof {
            let shorter = items.take(done as int);
            let longer = items.take(done + 1);
            assert(longer.drop_last() == shorter);
        }
        done = done + 1;
    }
    assert(items.take(done as int) == items);
}

/// Renders the program of case `id`.
pub fn render_source(id: usize, parameters: &Vec<u8>, arguments: &Vec<u8>) -> (text: String)
    ensures
        text@ == source_text(id as nat, parameters@, arguments@),
{
    let mut text: String = String::new();
    text.append(PREAMBLE);
    text.append("fn ");
    text.append(CALLEE_STEM);
    push_decimal(&mut text, id);
    text.append("(");
    push_list(&mut text, parameters, PARAMETER_PREFIX);
    text.append(INTERLUDE);
    text.append("fn ");
    text.append(CALLER_STEM);
    push_decimal(&mut text, id);
    text.append("() { ");
    text.append(CALLEE_STEM);
    push_decimal(&mut text, id);
    text.append("(");
    push_list(&mut text, arguments, ARGUMENT_PREFIX);
    text.append(EPILOGUE);
    text
}

/// The name of the file that case `id` is staged in.
pub fn staged_file_name(id: usize) -> (name: String)
    ensures
        name@ == file_name(id as nat),
{
    let mut name: String = String::new();
    name.append(FILE_STEM);
    push_decimal(&mut name, id);
    name.append(FILE_EXTENSION);
    name
}

/// Rendering is a function of its inputs: the same identifier and the same
/// two lists give the same text, character for character.
pub proof fn lemma_render_deterministic(
    id_a: nat,
    parameters_a: Seq<u8>,
    arguments_a: Seq<u8>,
    id_b: nat,
    parameters_b: Seq<u8>,
    arguments_b: Seq<u8>,
)
    requires
        id_a == id_b,
        parameters_a == parameters_b,
        arguments_a == arguments_b,
    ensures
        source_text(id_a, parameters_a, arguments_a) == source_text(
            id_b,
            parameters_b,
            arguments_b,
        ),
{
}

/// Cases with distinct identifiers never share a name: neither of the staged
/// file nor of either generated function.
pub proof fn lemma_names_distinct(id_a: nat, id_b: nat)
    requires
        id_a != id_b,
    ensures
        file_name(id_a) != file_name(id_b),
        callee_name(id_a) != callee_name(id_b),
        caller_name(id_a) != caller_name(id_b),
{
    let a = decimal(id_a);
    let b = decimal(id_b);
    if a == b {
        lemma_decimal_injective(id_a, id_b);
    }
    lemma_framed_distinct(FILE_STEM@, a, b, FILE_EXTENSION@);
    lemma_framed_distinct(CALLEE_STEM@, a, b, Seq::empty());
    lemma_framed_distinct(CALLER_STEM@, a, b, Seq::empty());
}

/// Distinct texts stay distinct between the same opening and closing.
proof fn lemma_framed_distinct(
    opening: Seq<char>,
    a: Seq<char>,
    b: Seq<char>,
    closing: Seq<char>,
)
    requires
        a != b,
    ensures
        opening + a + closing != opening + b + closing,
{
    let framed_a = opening + a + closing;
    let framed_b = opening + b + closing;
    if framed_a == framed_b {
        assert(a.len() == b.len()) by {
            assert(framed_a.len() == opening.len() + a.len() + closing.len());
            assert(framed_b.len() == opening.len() + b.len() + closing.len());
        }
        assert forall|i: int| 0 <= i < a.len() implies a[i] == b[i] by {
            assert(framed_a[opening.len() + i] == a[i]);
            assert(framed_b[opening.len() + i] == b[i]);
        }
        assert(a =~= b);
    }
}

} // verus!
