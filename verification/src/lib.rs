//! A two-phase shell-environment provisioner.
//!
//! The build phase compiles a dynamically-typed configuration document into a
//! validated set of build instructions; those are lowered into install
//! instructions, an ordered provisioning plan with a matching teardown plan.
//! The install phase interprets that plan as a bounded session: provision,
//! run the shell, tear down.

use vstd::prelude::*;

pub mod compile;
pub mod doc;
pub mod errors;
pub mod extract;
pub mod persist;
pub mod plan;
pub mod session;

use crate::compile::{compile, spec_bindings, spec_doc_errors, spec_files};
use crate::doc::Document;
use crate::errors::{BuildError, BuildErrorV, BuildValidationError};
use crate::extract::{spec_path_field, spec_string_field};
use crate::persist::{parse_document, toml_doc};
use crate::plan::{
    InstallInstructions, dir_actions_of, dir_teardowns, file_actions_of, lower,
};
use crate::session::{Command, Session, SessionState};

verus! {

/// The plan a document compiles and lowers to, field for field: the scalar
/// fields extract to the plan's, the actions are the bindings' then the
/// files', and the teardown list is their inverse in reverse order.
pub open spec fn plan_of_document(doc: Document, i: InstallInstructions) -> bool {
    &&& spec_path_field(doc.entries@, "dir"@) == Ok::<String, BuildErrorV>(i.dir)
    &&& spec_string_field(doc.entries@, "family"@) == Ok::<String, BuildErrorV>(i.family)
    &&& spec_string_field(doc.entries@, "descr"@) == Ok::<String, BuildErrorV>(i.tag)
    &&& spec_string_field(doc.entries@, "hooks"@) == Ok::<String, BuildErrorV>(i.hooks)
    &&& (spec_bindings(doc.entries@, "env_var_dirs"@) matches Ok(ds) && (spec_files(
        doc.entries@,
        "files"@,
    ) matches Ok(fs) && i.actions@ == dir_actions_of(ds) + file_actions_of(fs)))
    &&& i.teardown@ == dir_teardowns(i.actions@).reverse()
    &&& i.wf()
}

/// Build phase: parse the text of a build document, compile it with every
/// diagnostic collected, and lower the validated intent into the install
/// plan. Pure but for reading its argument: a rejected document has caused
/// no filesystem effect.
pub fn build(input: &str) -> (r: Result<InstallInstructions, BuildValidationError>)
    ensures
        toml_doc(input@) is None ==> (r matches Err(f) && f.errors@.len() == 1 && f.errors@[0]
            is DocumentParse),
        (toml_doc(input@) matches Some(doc) ==> {
            &&& spec_doc_errors(doc.entries@).len() == 0 ==> (r matches Ok(i)
                && plan_of_document(doc, i))
            &&& spec_doc_errors(doc.entries@).len() > 0 ==> (r matches Err(f) && f@
                == spec_doc_errors(doc.entries@))
        }),
{
    match parse_document(input) {
        Err(m) => {
            let es = vec![BuildError::DocumentParse(m)];
            Err(BuildValidationError { errors: es })
        },
        Ok(doc) => match compile(&doc) {
            Err(f) => Err(f),
            Ok(b) => Ok(lower(b)),
        },
    }
}

/// Install phase, opening step: parse the text of an install document,
/// rebuild and validate the plan, and open the session on it, deciding the
/// first command. The surrounding program then drives `Session::step` with
/// the outcome of each command.
pub fn install(input: &str) -> (r: Result<(Session, Command), BuildValidationError>)
    ensures
        toml_doc(input@) is None ==> (r matches Err(f) && f.errors@.len() == 1 && f.errors@[0]
            is DocumentParse),
        (toml_doc(input@) matches Some(doc) ==> {
            &&& spec_doc_errors(doc.entries@).len() == 0 ==> (r matches Ok(sc) && {
                &&& plan_of_document(doc, sc.0.plan)
                &&& sc.0.wf()
                &&& sc.0.stack@.len() == 0
                &&& sc.0.plan.actions@.len() > 0 ==> sc.0.state == (SessionState::Provisioning {
                    next: 0,
                }) && sc.1 == Command::Provision(sc.0.plan.actions@[0])
                &&& sc.0.plan.actions@.len() == 0 ==> (sc.0.state is Running) && sc.1 == (
                Command::Launch {
                    hooks: sc.0.plan.hooks,
                    dir: sc.0.plan.dir,
                    family: sc.0.plan.family,
                })
            })
            &&& spec_doc_errors(doc.entries@).len() > 0 ==> (r matches Err(f) && f@
                == spec_doc_errors(doc.entries@))
        }),
{
    match parse_document(input) {
        Err(m) => {
            let es = vec![BuildError::DocumentParse(m)];
            Err(BuildValidationError { errors: es })
        },
        Ok(doc) => match compile(&doc) {
            Err(f) => Err(f),
            Ok(b) => Ok(Session::start(lower(b))),
        },
    }
}

} // verus!
