//! Filter state: user-entered query text, the predicate compiled from it,
//! and the compile error shown inline. Compilation happens once per edit,
//! not once per matched item; an empty or uncompilable text degrades to
//! "match everything".
//!
//! The query language itself is an outside collaborator: compilation and
//! evaluation go through `jaq`, installed with a deliberately restricted
//! function table. The filters that read the clock, the environment or the
//! machine's timezone, or that exit the process (`now`, `env`, `halt`,
//! `halt_error`, `localtime`, `strflocaltime`), are left out, so that what
//! a query answers is a function of the program text and the item's fields
//! alone; a query naming one of them fails to compile. Items are matched
//! against an object with the integer-valued keys `doc_count`, `size_bytes`
//! and `rate_milli_per_sec` (thousandths of an operation per second) and
//! the string-valued keys `name` and `health`.

use vstd::prelude::*;

use jaq_core::load::{Arena, File, Loader};
use jaq_core::{Compiler, Ctx, RcIter};

use crate::models::IndexRate;

verus! {

/// Declares jaq's compiled-filter type, so a compiled query can be stored;
/// its contents stay opaque here.
#[verifier::external_type_specification]
#[verifier::external_body]
#[verifier::reject_recursive_types(F)]
pub struct ExJaqFilter<F>(jaq_core::Filter<F>);

/// Declares jaq's native-function table type that parameterises a filter.
#[verifier::external_type_specification]
#[verifier::external_body]
#[verifier::reject_recursive_types(V)]
pub struct ExJaqNative<V>(jaq_core::Native<V>);

/// Declares the jaq-json value model that filters run over.
#[verifier::external_type_specification]
#[verifier::external_body]
pub struct ExJaqVal(jaq_json::Val);

/// Declares jaq's evaluation-error type, reached through `Val`'s operators.
#[verifier::external_type_specification]
#[verifier::external_body]
#[verifier::reject_recursive_types(V)]
pub struct ExJaqError<V>(jaq_core::Error<V>);

/// Declares jaq's exception type, reached through `Val`'s operators.
#[verifier::external_type_specification]
#[verifier::external_body]
#[verifier::reject_recursive_types(V)]
pub struct ExJaqExn<'a, V>(jaq_core::Exn<'a, V>);

/// Whether the query language accepts `text` as a program. Compilation is
/// deterministic in the program text, so this is a function of the text.
pub uninterp spec fn compiles_ok(text: Seq<char>) -> bool;

/// What the program compiled from `text` answers on an item with the given
/// fields: whether running it on the item's serialised form yields at least
/// one output. Compiled programs can only call the deterministic function
/// table that `compile_query` installs, so evaluation is a function of the
/// program text and the fields.
pub uninterp spec fn query_matches(
    text: Seq<char>,
    name: Seq<char>,
    doc_count: int,
    size_bytes: int,
    health: Seq<char>,
    rate_milli: int,
) -> bool;

/// A compiled query paired with the text it was compiled from. The only
/// constructor is `compile_query`, so the pairing always holds.
pub struct CompiledQuery {
    text: String,
    filter: jaq_core::Filter<jaq_core::Native<jaq_json::Val>>,
}

/// Relies on jaq program loading and compilation (`jaq_core::load::Loader`
/// and `jaq_core::Compiler` with the jaq-std and jaq-json definitions),
/// installed without the clock, environment, process-exit and local-time
/// filters of `jaq_std` (and without the `halt_error` definition that
/// would call one): every function left in the table computes from its
/// arguments alone, so success or failure here, and every later run of the
/// compiled filter, is deterministic in the program text. Module reads are
/// stubbed by the loader, so `include` cannot touch the filesystem.
#[verifier::external_body]
fn compile_query(text: &String) -> (r: Result<CompiledQuery, String>)
    ensures
        r is Ok <==> compiles_ok(text@),
        r matches Ok(q) ==> q.text@ == text@,
{
    let nondet = ["env", "now", "halt", "halt_error", "localtime", "strflocaltime"];
    let defs = jaq_std::defs().filter(|d| d.name != "halt_error").chain(jaq_json::defs());
    let arena = Arena::default();
    let modules = match Loader::new(defs).load(&arena, File { code: text.as_str(), path: () }) {
        Ok(m) => m,
        Err(es) => return Err(format!("{:?}", es)),
    };
    let funs = jaq_std::funs().filter(|f| !nondet.contains(&f.0)).chain(jaq_json::funs());
    match Compiler::default().with_funs(funs).compile(modules) {
        Ok(filter) => Ok(CompiledQuery { text: text.clone(), filter }),
        Err(es) => Err(format!("{:?}", es)),
    }
}

/// Relies on jaq filter evaluation (`jaq_core::Filter::run` over the
/// jaq-json value model): with the restricted function table that
/// `compile_query` installs, every reachable filter computes from its
/// arguments alone, and the input stream handed to the run is empty, so
/// the outputs are a function of the compiled program's text and the
/// serialised item fields alone.
#[verifier::external_body]
fn eval_query(q: &CompiledQuery, item: &IndexRate) -> (r: bool)
    ensures
        r == query_matches(
            q.text@,
            item.name@,
            item.doc_count as int,
            item.size_bytes as int,
            item.health@,
            item.rate_milli as int,
        ),
{
    let mut obj = serde_json::Map::new();
    obj.insert("name".to_owned(), item.name.clone().into());
    obj.insert("doc_count".to_owned(), item.doc_count.into());
    obj.insert("size_bytes".to_owned(), item.size_bytes.into());
    obj.insert("health".to_owned(), item.health.clone().into());
    obj.insert("rate_milli_per_sec".to_owned(), item.rate_milli.into());
    let val = jaq_json::Val::from(serde_json::Value::Object(obj));
    let inputs = RcIter::new(core::iter::empty());
    let mut results = q.filter.run((Ctx::new([], &inputs), val));
    results.next().is_some()
}

/// Filter text entry and the cached compiled predicate.
pub struct FilterState {
    /// Whether the filter line is currently being edited.
    pub active: bool,
    pub text: String,
    /// Message of the last failed compilation, shown inline.
    pub error: Option<String>,
    pub compiled: Option<CompiledQuery>,
}

impl FilterState {
    /// The current query text.
    pub open spec fn spec_text(self) -> Seq<char> {
        self.text@
    }

    /// Whether no predicate is cached, so that every item matches.
    pub open spec fn match_all(self) -> bool {
        self.compiled is None
    }

    /// Whether `item` passes the filter: true when no predicate is cached,
    /// else what the cached program answers on the item's fields.
    pub closed spec fn accepts(self, item: IndexRate) -> bool {
        match self.compiled {
            None => true,
            Some(q) => query_matches(
                q.text@,
                item.name@,
                item.doc_count as int,
                item.size_bytes as int,
                item.health@,
                item.rate_milli as int,
            ),
        }
    }

    /// A filter with no text, no predicate and no error.
    pub fn new() -> (r: Self)
        ensures
            !r.active,
            r.spec_text() == Seq::<char>::empty(),
            r.error is None,
            r.match_all(),
    {
        FilterState { active: false, text: String::new(), error: None, compiled: None }
    }

    /// The query text as entered.
    pub fn text(&self) -> (t: &String)
        ensures
            t@ == self.spec_text(),
    {
        &self.text
    }

    /// Begin editing the filter line.
    pub fn enter(&mut self)
        ensures
            final (self).active,
            unchanged_but_active(*old(self), *final (self)),
    {
        self.active = true;
    }

    /// Stop editing the filter line; text and predicate stay in force.
    pub fn exit(&mut self)
        ensures
            !final (self).active,
            unchanged_but_active(*old(self), *final (self)),
    {
        self.active = false;
    }

    /// Drop text, predicate and error, and leave editing mode.
    pub fn clear(&mut self)
        ensures
            !final (self).active,
            final (self).spec_text() == Seq::<char>::empty(),
            final (self).error is None,
            final (self).match_all(),
    {
        self.text = String::new();
        self.error = None;
        self.compiled = None;
        self.active = false;
    }

    /// Replace the query text; the cached predicate is untouched until the
    /// next `recompile`.
    pub fn set_text(&mut self, t: String)
        ensures
            final (self).spec_text() == t@,
            final (self).active == old(self).active,
            final (self).error == old(self).error,
            final (self).match_all() == old(self).match_all(),
            forall|item: IndexRate| final (self).accepts(item) == old(self).accepts(item),
    {
        self.text = t;
    }

    /// Compile the current text. Empty text clears predicate and error;
    /// a successful compilation installs the predicate and clears the
    /// error; a failed one clears the predicate (so everything matches
    /// again) and stores the error message.
    pub fn recompile(&mut self)
        ensures
            final (self).active == old(self).active,
            final (self).spec_text() == old(self).spec_text(),
            old(self).spec_text().len() == 0 ==> final (self).match_all() && final (self).error
                is None,
            old(self).spec_text().len() > 0 && compiles_ok(old(self).spec_text()) ==> {
                &&& !final (self).match_all()
                &&& final (self).error is None
                &&& forall|item: IndexRate|
                    final (self).accepts(item) == query_matches(
                        old(self).spec_text(),
                        item.name@,
                        item.doc_count as int,
                        item.size_bytes as int,
                        item.health@,
                        item.rate_milli as int,
                    )
            },
            old(self).spec_text().len() > 0 && !compiles_ok(old(self).spec_text()) ==> {
                &&& final (self).match_all()
                &&& final (self).error is Some
            },
    {
        if self.text.as_str().is_empty() {
            self.error = None;
            self.compiled = None;
        } else {
            match compile_query(&self.text) {
                Ok(q) => {
                    self.error = None;
                    self.compiled = Some(q);
                },
                Err(e) => {
                    self.error = Some(e);
                    self.compiled = None;
                },
            }
        }
    }

    /// Whether `item` passes the filter, as `accepts` describes; in
    /// particular true whenever no predicate is cached.
    pub fn is_match(&self, item: &IndexRate) -> (r: bool)
        ensures
            r == self.accepts(*item),
    {
        match &self.compiled {
            None => true,
            Some(q) => eval_query(q, item),
        }
    }
}

/// The two states agree on everything except the editing flag.
pub open spec fn unchanged_but_active(a: FilterState, b: FilterState) -> bool {
    &&& a.spec_text() == b.spec_text()
    &&& a.error == b.error
    &&& a.match_all() == b.match_all()
    &&& forall|item: IndexRate| a.accepts(item) == b.accepts(item)
}

/// A filter that caches no predicate lets every item through.
pub proof fn lemma_match_all_accepts_everything(fs: FilterState, item: IndexRate)
    requires
        fs.match_all(),
    ensures
        fs.accepts(item),
{
}

} // verus!
