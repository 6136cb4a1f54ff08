use vstd::prelude::*;
use vstd::string::*;

use crate::text::{decimal, decimal_text, hex, hex_text};

verus! {

/// A template's identity: an opaque 128-bit value.
#[derive(Clone, Copy, Debug, PartialEq, Eq, Structural, Hash)]
pub struct TemplateId {
    pub value: u128,
}

/// A worker's identity: its template and a name unique within that template.
#[derive(Clone, Debug)]
pub struct WorkerId {
    pub template_id: TemplateId,
    pub name: String,
}

/// A promise, created by a worker at one index of its oplog.
#[derive(Clone, Debug)]
pub struct PromiseId {
    pub worker_id: WorkerId,
    pub oplog_idx: u64,
}

/// A partition of the worker id space.
#[derive(Clone, Copy, Debug, PartialEq, Eq, Structural, Hash)]
pub struct ShardId {
    pub value: u64,
}

/// A template id written as 32 lower-case hexadecimal digits.
pub open spec fn template_id_text(t: TemplateId) -> Seq<char> {
    hex_text(t.value as nat, 32)
}

/// A worker id written as `<template>/<name>`.
pub open spec fn worker_id_text(w: WorkerId) -> Seq<char> {
    template_id_text(w.template_id) + "/"@ + w.name@
}

/// A promise id written as `<worker>#<oplog index>`.
pub open spec fn promise_id_text(p: PromiseId) -> Seq<char> {
    worker_id_text(p.worker_id) + "#"@ + decimal_text(p.oplog_idx as nat)
}

/// Two worker ids name the same worker.
pub open spec fn same_worker(a: WorkerId, b: WorkerId) -> bool {
    a.template_id == b.template_id && a.name@ == b.name@
}

impl TemplateId {
    pub fn to_text(&self) -> (r: String)
        ensures
            r@ == template_id_text(*self),
    {
        hex(self.value, 32)
    }
}

impl WorkerId {
    pub fn to_text(&self) -> (r: String)
        ensures
            r@ == worker_id_text(*self),
    {
        let mut s = self.template_id.to_text();
        s.append("/");
        s.append(self.name.as_str());
        s
    }

    /// Whether both ids name the same worker.
    pub fn same_as(&self, other: &WorkerId) -> (r: bool)
        ensures
            r == same_worker(*self, *other),
    {
        self.template_id.value == other.template_id.value && self.name == other.name
    }
}

impl PromiseId {
    pub fn to_text(&self) -> (r: String)
        ensures
            r@ == promise_id_text(*self),
    {
        let mut s = self.worker_id.to_text();
        s.append("#");
        let idx = decimal(self.oplog_idx);
        s.append(idx.as_str());
        s
    }
}

} // verus!
