//! The editor preference record: which external editor command to launch for
//! a rule file, and where rule files live. Detecting an installed editor and
//! spawning it are the embedder's work; this record only carries the choice.

use vstd::prelude::*;
use vstd::string::StringExecFns;

verus! {

/// The editor choice and the rule-file directory.
#[derive(Debug)]
pub struct Editor {
    editor_command: String,
    rules_directory: String,
}

impl Editor {
    /// The editor command to launch.
    pub closed spec fn spec_editor(self) -> Seq<char> {
        self.editor_command@
    }

    /// The directory rule files are kept in.
    pub closed spec fn spec_rules_directory(self) -> Seq<char> {
        self.rules_directory@
    }

    /// A record with the fallback editor and the default rule directory; the
    /// embedder overrides the editor once it has probed the environment.
    pub fn new() -> (r: Editor)
        ensures
            r.spec_editor() == "nano"@,
            r.spec_rules_directory() == "rules"@,
    {
        Editor {
            editor_command: String::from_str("nano"),
            rules_directory: String::from_str("rules"),
        }
    }

    /// Override the editor command.
    pub fn set_editor(&mut self, editor: String)
        ensures
            final(self).spec_editor() == editor@,
            final(self).spec_rules_directory() == old(self).spec_rules_directory(),
    {
        self.editor_command = editor;
    }

    /// The configured editor command.
    pub fn get_editor(&self) -> (r: &str)
        ensures
            r@ == self.spec_editor(),
    {
        self.editor_command.as_str()
    }
}

} // verus!
