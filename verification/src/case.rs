//! A test case: an identifier, the two lists, and what is rendered from them.

use crate::counter::CaseCounter;
use crate::generator::{CaseBody, Generator};
use crate::render::{file_name, render_source, source_text, staged_file_name};
use vstd::prelude::*;

verus! {

/// One test case, ready to be staged.
#[derive(Debug)]
pub struct TestCase {
    /// The identifier, unique within the run.
    pub id: usize,
    /// One tag for each formal parameter of the generated function.
    pub parameters: Vec<u8>,
    /// One tag for each argument at the call site.
    pub arguments: Vec<u8>,
    /// The program.
    pub source: String,
    /// The name of the file that the program is staged in, without a
    /// directory.
    pub file_name: String,
}

impl TestCase {
    /// The rendered parts are those of the identifier and the lists.
    pub open spec fn is_rendered(self) -> bool {
        &&& self.source@ == source_text(self.id as nat, self.parameters@, self.arguments@)
        &&& self.file_name@ == file_name(self.id as nat)
    }

    /// The case of the given identifier and lists.
    pub fn assemble(id: usize, body: CaseBody) -> (case: TestCase)
        ensures
            case.id == id,
            case.parameters@ == body.parameters@,
            case.arguments@ == body.arguments@,
            case.is_rendered(),
    {
        let source: String = render_source(id, &body.parameters, &body.arguments);
        let file_name: String = staged_file_name(id);
        TestCase {
            id,
            parameters: body.parameters,
            arguments: body.arguments,
            source,
            file_name,
        }
    }
}

/// A fresh case: two generated lists under the next identifier. There is
/// none once the counter has run out.
pub fn next_case(generator: &mut Generator, counter: &mut CaseCounter) -> (case: Option<TestCase>)
    ensures
        case is None <==> old(counter).is_exhausted(),
        case is None ==> *final(counter) == *old(counter),
        case matches Some(case) ==> {
            &&& CaseCounter::issues(*old(counter), case.id as nat, *final(counter))
            &&& !old(counter).issued().contains(case.id as nat)
            &&& final(counter).issued() == old(counter).issued().insert(case.id as nat)
            &&& crate::generator::is_generated_list(case.parameters@)
            &&& crate::generator::is_generated_list(case.arguments@)
            &&& case.is_rendered()
        },
{
    let body: CaseBody = generator.case_body();
    match counter.issue() {
        None => None,
        Some(id) => Some(TestCase::assemble(id, body)),
    }
}

} // verus!
