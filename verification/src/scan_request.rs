//! The request that a scanner answers: which cluster to scan, or which saved
//! scan to read.
use crate::text::text_view;
use crate::text_map::{text_or, text_or_blank, TextMap};
use vstd::prelude::*;

verus! {

/// A request for a scan.
pub struct ScanRequest {
    pub schema_version: u32,
    pub context: Option<String>,
    pub namespace: Option<String>,
    pub inputs: TextMap<String>,
}

/// What to scan.
#[verifier::ext_equal]
pub struct ScopeView {
    pub context: Seq<char>,
    pub namespace: Seq<char>,
    /// The saved scan to read instead, where one is named.
    pub saved: Seq<char>,
}

/// What to scan.
#[derive(Debug, PartialEq, Eq)]
pub struct Scope {
    pub context: String,
    pub namespace: String,
    pub saved: String,
}

impl Scope {
    pub open spec fn view(&self) -> ScopeView {
        ScopeView { context: self.context@, namespace: self.namespace@, saved: self.saved@ }
    }
}

/// A text, or an empty one.
pub open spec fn or_empty(text: Option<String>) -> Seq<char> {
    match text_view(text) {
        Some(text) => text,
        None => Seq::empty(),
    }
}

/// What a request asks for, or why it is refused.
pub open spec fn scope_of(request: &ScanRequest) -> Result<ScopeView, Seq<char>> {
    if request.schema_version != 1 {
        Err("unsupported request schema_version"@)
    } else {
        Ok(
            ScopeView {
                context: or_empty(request.context),
                namespace: or_empty(request.namespace),
                saved: text_or(request.inputs@, "report"@),
            },
        )
    }
}

fn text_or_none(text: &Option<String>) -> (copy: String)
    ensures
        copy@ == or_empty(*text),
{
    match text {
        Some(text) => text.clone(),
        None => String::new(),
    }
}

/// Accepts a request or refuses it.
pub fn scan_scope(request: &ScanRequest) -> (scope: Result<Scope, String>)
    ensures
        match scope {
            Ok(scope) => scope_of(request) == Ok::<ScopeView, Seq<char>>(scope@),
            Err(message) => scope_of(request) == Err::<ScopeView, Seq<char>>(message@),
        },
{
    if request.schema_version != 1 {
        return Err("unsupported request schema_version".to_owned());
    }
    Ok(
        Scope {
            context: text_or_none(&request.context),
            namespace: text_or_none(&request.namespace),
            saved: text_or_blank(&request.inputs, "report"),
        },
    )
}

} // verus!
