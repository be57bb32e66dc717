//! The units of evidence the pipeline works on: one record per commit,
//! issue, discussion or repository-metadata item.

use vstd::prelude::*;

verus! {

/// What kind of activity a record captures.
#[derive(Debug, Clone, Copy, PartialEq, Eq, Structural)]
pub enum MemoryType {
    Commit,
    Issue,
    Discussion,
    Meta,
}

/// One unit of evidence about a contributor's work.  Identity fields are set
/// at fetch time; analysis fills `payload` but does not change them.
#[derive(Debug, Clone)]
pub struct GitMemory {
    pub memory_type: MemoryType,
    pub name: String,
    pub tag_line: String,
    pub source_url: String,
    pub payload: String,
}

/// Spec-level image of a record.
pub struct GitMemoryView {
    pub memory_type: MemoryType,
    pub name: Seq<char>,
    pub tag_line: Seq<char>,
    pub source_url: Seq<char>,
    pub payload: Seq<char>,
}

impl View for GitMemory {
    type V = GitMemoryView;

    open spec fn view(&self) -> GitMemoryView {
        GitMemoryView {
            memory_type: self.memory_type,
            name: self.name@,
            tag_line: self.tag_line@,
            source_url: self.source_url@,
            payload: self.payload@,
        }
    }
}

impl GitMemory {
    /// A fresh record with an empty analysis payload.
    pub fn new(
        memory_type: MemoryType,
        name: String,
        tag_line: String,
        source_url: String,
    ) -> (r: GitMemory)
        ensures
            r@.memory_type == memory_type,
            r@.name == name@,
            r@.tag_line == tag_line@,
            r@.source_url == source_url@,
            r@.payload == Seq::<char>::empty(),
    {
        GitMemory { memory_type, name, tag_line, source_url, payload: String::new() }
    }
}

} // verus!
