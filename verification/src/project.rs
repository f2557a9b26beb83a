//! The project-layout validator: a project directory must hold two
//! subdirectories and two files; the validator reports the first missing
//! element.

use vstd::prelude::*;
use vstd::string::StringExecFns;

verus! {

/// What a probe of a project directory found: whether each required element
/// exists with the required kind.
#[derive(Clone, Copy, Debug, PartialEq, Eq, Structural)]
pub struct ProjectLayout {
    pub corpus_dir: bool,
    pub crashes_dir: bool,
    pub config_file: bool,
    pub grammar_file: bool,
}

/// All four required elements are present.
pub open spec fn layout_complete(l: ProjectLayout) -> bool {
    l.corpus_dir && l.crashes_dir && l.config_file && l.grammar_file
}

/// The message naming the first missing element, checked in this order:
/// corpus directory, crashes directory, configuration file, grammar file.
pub open spec fn layout_error_message(l: ProjectLayout) -> Seq<char> {
    if !l.corpus_dir {
        "Corpus directory not found."@
    } else if !l.crashes_dir {
        "Crashes directory not found."@
    } else if !l.config_file {
        "config.json not found."@
    } else {
        "grammar.json not found."@
    }
}

/// Check a probed project layout: `Ok` exactly when all four required
/// elements are present, otherwise an error naming the first missing one.
pub fn validate_project_structure(layout: &ProjectLayout) -> (r: Result<(), String>)
    ensures
        r is Ok <==> layout_complete(*layout),
        r matches Err(m) ==> m@ == layout_error_message(*layout),
{
    if !layout.corpus_dir {
        return Err(String::from_str("Corpus directory not found."));
    }
    if !layout.crashes_dir {
        return Err(String::from_str("Crashes directory not found."));
    }
    if !layout.config_file {
        return Err(String::from_str("config.json not found."));
    }
    if !layout.grammar_file {
        return Err(String::from_str("grammar.json not found."));
    }
    Ok(())
}

} // verus!
