//! Capturing the call stack: the addresses of the active frames, and the
//! symbols that each address resolves to, in one ordered list.

use crate::frame::{syms_view, text_view, Sym, SymView};
use vstd::prelude::*;

verus! {

/// What the symbolizer tells of one symbol: its name, its line, and the path
/// of its file, whose text is missing where the path is not valid UTF-8.
#[derive(Debug, Clone, PartialEq, Eq)]
pub struct Resolved {
    pub name: Option<String>,
    pub lineno: Option<u32>,
    pub path: Option<Option<String>>,
}

/// The file name under which a path is shown.
pub open spec fn shown_path(path: Option<Option<String>>) -> Option<Seq<char>> {
    match path {
        Some(Some(text)) => Some(text@),
        Some(None) => Some("<bad utf8>"@),
        None => None,
    }
}

/// The symbol that stands for a resolved record.
pub open spec fn sym_of(resolved: Resolved) -> SymView {
    SymView {
        name: text_view(resolved.name),
        lineno: resolved.lineno,
        filename: shown_path(resolved.path),
    }
}

/// The symbols of the groups of records, one group per address: every record
/// of the first group, then every record of the second, and so on. Nothing is
/// left out, reordered or merged.
pub open spec fn flattened(groups: Seq<Vec<Resolved>>) -> Seq<SymView>
    decreases groups.len(),
{
    if groups.len() == 0 {
        Seq::empty()
    } else {
        flattened(groups.drop_last()) + Seq::new(
            groups.last()@.len(),
            |i: int| sym_of(groups.last()@[i]),
        )
    }
}

/// Calls `backtrace::trace` and collects the instruction pointer of every
/// frame that it yields, in the order in which it yields them. Which frames
/// there are depends on the running program, so nothing is said of them.
#[verifier::external_body]
fn trace_addresses() -> (ips: Vec<usize>) {
    let mut ips = Vec::new();
    backtrace::trace(
        |frame| {
            ips.push(frame.ip() as usize);
            true
        },
    );
    ips
}

/// Calls `backtrace::resolve` on an address and collects what it yields, in
/// order: no record, one, or several where functions were inlined. What is
/// found depends on the program's debug information, so nothing is said of
/// it.
#[verifier::external_body]
fn resolve_address(ip: usize) -> (found: Vec<Resolved>) {
    let mut found = Vec::new();
    backtrace::resolve(
        ip as _,
        |symbol| {
            found.push(
                Resolved {
                    name: symbol.name().map(|name| name.to_string()),
                    lineno: symbol.lineno(),
                    path: symbol.filename().map(|path| path.to_str().map(|text| text.to_owned())),
                },
            );
        },
    );
    found
}

impl Sym {
    /// The symbol that stands for a resolved record. A path that is not
    /// valid UTF-8 is shown by a placeholder.
    pub fn from_resolved(resolved: &Resolved) -> (sym: Sym)
        ensures
            sym@ == sym_of(*resolved),
    {
        let name = match &resolved.name {
            Some(text) => Some(text.clone()),
            None => None,
        };
        let filename = match &resolved.path {
            Some(Some(text)) => Some(text.clone()),
            Some(None) => Some(String::from_str("<bad utf8>")),
            None => None,
        };
        Sym { name, lineno: resolved.lineno, filename }
    }
}

/// Puts the records of all addresses into one list of symbols, in order.
pub fn flatten(groups: &Vec<Vec<Resolved>>) -> (syms: Vec<Sym>)
    ensures
        syms_view(syms@) == flattened(groups@),
{
    let mut syms: Vec<Sym> = Vec::new();
    let mut done: usize = 0;
    while done < groups.len()
        invariant
            done <= groups@.len(),
            syms_view(syms@) == flattened(groups@.take(done as int)),
        decreases groups@.len() - done,
    {
        let group = &groups[done];
        let ghost start = syms_view(syms@);
        let mut at: usize = 0;
        while at < group.len()
            invariant
                at <= group@.len(),
                syms_view(syms@) == start + Seq::new(at as nat, |i: int| sym_of(group@[i])),
            decreases group@.len() - at,
        {
            let ghost so_far = syms_view(syms@);
            let sym = Sym::from_resolved(&group[at]);
            syms.push(sym);
            assert(syms_view(syms@) =~= so_far.push(sym_of(group@[at as int])));
            assert(syms_view(syms@) =~= start + Seq::new(
                (at + 1) as nat,
                |i: int| sym_of(group@[i]),
            ));
            at = at + 1;
        }
        proof {
            let shown = groups@.take(done + 1);
            assert(shown.drop_last() =~= groups@.take(done as int));
            assert(shown.last() == groups@[done as int]);
        }
        done = done + 1;
    }
    assert(groups@.take(done as int) =~= groups@);
    syms
}

/// Captures the call stack of the caller: walks the active frames, resolves
/// the address of each to its symbols, and lists them all in the order in
/// which they were found. What the list holds depends on the running
/// program.
pub fn capture_symbols() -> (syms: Vec<Sym>) {
    let ips = trace_addresses();
    let mut groups: Vec<Vec<Resolved>> = Vec::new();
    let mut at: usize = 0;
    while at < ips.len()
        invariant
            at <= ips.len(),
        decreases ips.len() - at,
    {
        groups.push(resolve_address(ips[at]));
        at = at + 1;
    }
    flatten(&groups)
}

} // verus!
