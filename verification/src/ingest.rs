//! Adding a knowledge entry: what it is, and which records it is linked to.

use vstd::prelude::*;
use crate::cli;
use crate::graph::rec_members;
use crate::hierarchy::{HierarchyView, StructuralHierarchy};
use crate::json::{Json, JsonView, member_text, members_view, lemma_object_view, member_text_of};
use crate::records::{debug_str, in_table, has_table_prefix, str_debug, strings_view};
use crate::text::owned;

verus! {

/// What adding a knowledge entry did.
#[derive(Debug, Clone, PartialEq)]
pub struct KnowledgeResult {
    pub kind: String,
    pub content: String,
    pub linked: bool,
}

/// Why a knowledge entry could not be added or linked.
#[derive(Debug)]
pub enum IngestError {
    /// No field was given.
    NoFields,
    /// A link target of knowledge that is not a knowledge entry.
    NotContext { id: String },
}

/// The text of an ingestion error.
pub open spec fn ingest_message(e: IngestError) -> Seq<char> {
    match e {
        IngestError::NoFields => "At least one --field key=value pair is required"@,
        IngestError::NotContext { id } => "link_context: to_context_id must be a context record id; got "@
            + str_debug(id@),
    }
}

impl IngestError {
    /// The text of the error.
    pub fn message(&self) -> (r: String)
        ensures
            r@ == ingest_message(*self),
    {
        match self {
            IngestError::NoFields => owned("At least one --field key=value pair is required"),
            IngestError::NotContext { id } => {
                let mut s = owned("link_context: to_context_id must be a context record id; got ");
                let d = debug_str(id.as_str());
                s.append(d.as_str());
                s
            },
        }
    }
}

/// The kind of an entry: its `type` field where that is a string, else `unknown`.
pub open spec fn kind_of(fields: Seq<(Seq<char>, JsonView)>) -> Seq<char> {
    match member_text(fields, "type"@) {
        Some(t) => t,
        None => "unknown"@,
    }
}

/// The content of an entry: its `content` field where that is a string, else empty.
pub open spec fn content_of(fields: Seq<(Seq<char>, JsonView)>) -> Seq<char> {
    match member_text(fields, "content"@) {
        Some(t) => t,
        None => Seq::empty(),
    }
}

/// The kind and content of a new entry; an error where it has no field.
pub fn knowledge_summary(fields: &Vec<(String, Json)>) -> (r: Result<(String, String), IngestError>)
    ensures
        fields@.len() == 0 ==> r matches Err(IngestError::NoFields),
        fields@.len() > 0 ==> (r matches Ok(p) && p.0@ == kind_of(members_view(fields@)) && p.1@ == content_of(
            members_view(fields@),
        )),
{
    if fields.len() == 0 {
        return Err(IngestError::NoFields);
    }
    let kind = match member_text_of(fields, "type") {
        Some(t) => t,
        None => owned("unknown"),
    };
    let content = match member_text_of(fields, "content") {
        Some(t) => t,
        None => String::new(),
    };
    Ok((kind, content))
}

/// The links to make once the entry `created` exists: `(target, entry)`
/// for each target, where the entry has an id; and the result.
pub open spec fn knowledge_links_spec(created: JsonView, link_to: Seq<Seq<char>>) -> (Seq<(Seq<char>, Seq<char>)>, bool) {
    match member_text(rec_members(created), "id"@) {
        None => (Seq::empty(), false),
        Some(id) => (Seq::new(link_to.len(), |i: int| (link_to[i], id)), link_to.len() > 0),
    }
}

/// The links to make once the entry `created` exists, and whether the entry
/// counts as linked.
pub fn knowledge_links(created: &Json, link_to: &Vec<String>) -> (r: (Vec<(String, String)>, bool))
    ensures
        r.0@.map_values(|p: (String, String)| (p.0@, p.1@)) == knowledge_links_spec(created@, strings_view(link_to@)).0,
        r.1 == knowledge_links_spec(created@, strings_view(link_to@)).1,
{
    let id = match created {
        Json::Object(m) => {
            proof {
                lemma_object_view(*m);
            }
            member_text_of(m, "id")
        },
        _ => None,
    };
    let mut out: Vec<(String, String)> = Vec::new();
    match id {
        None => {
            assert(out@.map_values(|p: (String, String)| (p.0@, p.1@)) =~= Seq::<(Seq<char>, Seq<char>)>::empty());
            (out, false)
        },
        Some(id) => {
            let ghost lv = strings_view(link_to@);
            let mut i: usize = 0;
            while i < link_to.len()
                invariant
                    i <= link_to@.len(),
                    lv == strings_view(link_to@),
                    out@.map_values(|p: (String, String)| (p.0@, p.1@)) =~= Seq::new(
                        i as nat,
                        |j: int| (lv[j], id@),
                    ),
                decreases link_to@.len() - i,
            {
                let ghost before = out@;
                out.push((link_to[i].clone(), id.clone()));
                assert(out@.map_values(|p: (String, String)| (p.0@, p.1@)) =~= before.map_values(
                    |p: (String, String)| (p.0@, p.1@),
                ).push((lv[i as int], id@)));
                i = i + 1;
            }
            let linked = link_to.len() > 0;
            (out, linked)
        },
    }
}

/// Checks that a knowledge link targets a knowledge entry.
pub fn check_context_id(id: &str) -> (r: Result<(), IngestError>)
    ensures
        in_table("context"@, id@) ==> r is Ok,
        !in_table("context"@, id@) ==> (r matches Err(IngestError::NotContext { id: x }) && x@ == id@),
{
    if has_table_prefix("context", id) {
        Ok(())
    } else {
        Err(IngestError::NotContext { id: owned(id) })
    }
}

/// The edges from a knowledge entry back to the structure above the record
/// it is linked to: its project, module and task, where there are.
pub open spec fn reverse_edges_spec(h: HierarchyView) -> Seq<(Seq<char>, Seq<char>)> {
    (match h.project_id {
        Some(p) => seq![("belongs_to_project"@, p)],
        None => Seq::empty(),
    }) + (match h.module_id {
        Some(m) => seq![("belongs_to_module"@, m)],
        None => Seq::empty(),
    }) + (match h.task_id {
        Some(t) => seq![("belongs_to_task"@, t)],
        None => Seq::empty(),
    })
}

/// The edges from a knowledge entry back to the structure above the record
/// it is linked to: `(edge, target)` for its project, module and task.
pub fn reverse_edges(h: &StructuralHierarchy) -> (r: Vec<(&'static str, String)>)
    ensures
        r@.map_values(|p: (&'static str, String)| (p.0@, p.1@)) == reverse_edges_spec(h@),
{
    let mut out: Vec<(&'static str, String)> = Vec::new();
    if let Some(p) = &h.project_id {
        out.push(("belongs_to_project", p.clone()));
    }
    if let Some(m) = &h.module_id {
        out.push(("belongs_to_module", m.clone()));
    }
    if let Some(t) = &h.task_id {
        out.push(("belongs_to_task", t.clone()));
    }
    assert(out@.map_values(|p: (&'static str, String)| (p.0@, p.1@)) =~= reverse_edges_spec(h@));
    out
}

} // verus!
