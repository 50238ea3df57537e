use crate::diagnostics::base::DiagModel;
use crate::diagnostics::reporter::{Diag, Reporter};
use crate::types::base::{types_model, Ty, Type};
use crate::types::copy::types_clone;
use std::collections::VecDeque;
use vstd::prelude::*;
use vstd::std_specs::cmp::PartialEqSpecImpl;

verus! {

/// Model of [`PartialItem`].
pub struct PartialItemModel {
    pub path: Seq<char>,
    pub name: Seq<char>,
}

/// A name whose type is still a partial function, with the file it is in.
#[derive(Debug)]
pub struct PartialItem {
    pub path: String,
    pub name: String,
}

impl View for PartialItem {
    type V = PartialItemModel;

    open spec fn view(&self) -> PartialItemModel {
        PartialItemModel { path: self.path@, name: self.name@ }
    }
}

impl PartialItem {
    /// The item for the name `name` in the file `path`.
    pub fn new(path: String, name: String) -> (r: PartialItem)
        ensures
            r@ == (PartialItemModel { path: path@, name: name@ }),
    {
        PartialItem { path, name }
    }
}

impl Clone for PartialItem {
    fn clone(&self) -> (r: Self)
        ensures
            r@ == self@,
    {
        PartialItem { path: self.path.clone(), name: self.name.clone() }
    }
}

impl PartialEq for PartialItem {
    fn eq(&self, other: &Self) -> (r: bool) {
        self.path == other.path && self.name == other.name
    }
}

impl PartialEqSpecImpl for PartialItem {
    open spec fn obeys_eq_spec() -> bool {
        true
    }

    open spec fn eq_spec(&self, other: &Self) -> bool {
        self@ == other@
    }
}

/// Model of [`StatementSynthDataReturn`].
pub struct ReturnsModel {
    pub annotation: Ty,
    pub found_types: Seq<Ty>,
}

/// What is known of the returns of the function whose body is being walked:
/// the type it declares, and the types of the values returned so far.
#[derive(Debug)]
pub struct StatementSynthDataReturn {
    pub annotation: Type,
    pub found_types: Vec<Type>,
}

impl View for StatementSynthDataReturn {
    type V = ReturnsModel;

    open spec fn view(&self) -> ReturnsModel {
        ReturnsModel { annotation: self.annotation@, found_types: types_model(self.found_types@) }
    }
}

impl StatementSynthDataReturn {
    /// The return context of a function that declares `annotation`, with
    /// nothing returned yet.
    pub fn new(annotation: Type) -> (r: StatementSynthDataReturn)
        ensures
            r@ == (ReturnsModel { annotation: annotation@, found_types: Seq::empty() }),
    {
        let r = StatementSynthDataReturn { annotation, found_types: Vec::new() };
        assert(r@.found_types =~= Seq::empty());
        r
    }
}

impl Clone for StatementSynthDataReturn {
    fn clone(&self) -> (r: Self)
        ensures
            r@ == self@,
    {
        StatementSynthDataReturn {
            annotation: self.annotation.clone(),
            found_types: types_clone(&self.found_types),
        }
    }
}

/// Model of [`StatementSynthData`].
pub struct DataModel {
    pub return_context: Option<ReturnsModel>,
    pub partial_list: Seq<PartialItemModel>,
}

/// The models of a queue of partial items, front first.
pub open spec fn partial_items_model(s: Seq<PartialItem>) -> Seq<PartialItemModel> {
    Seq::new(s.len(), |i: int| s[i]@)
}

/// The model of an optional return context.
pub open spec fn returns_model(o: Option<StatementSynthDataReturn>) -> Option<ReturnsModel> {
    match o {
        Some(r) => Some(r@),
        None => None,
    }
}

/// What the statement checker carries along: the return context of the
/// function being walked, if any, and the queue of names whose types are
/// still partial functions.
#[derive(Debug)]
pub struct StatementSynthData {
    pub returns: Option<StatementSynthDataReturn>,
    pub partial_list: VecDeque<PartialItem>,
}

impl View for StatementSynthData {
    type V = DataModel;

    open spec fn view(&self) -> DataModel {
        DataModel {
            return_context: returns_model(self.returns),
            partial_list: partial_items_model(self.partial_list@),
        }
    }
}

impl StatementSynthData {
    /// The state with the given return context and nothing queued.
    pub fn new(return_context: Option<StatementSynthDataReturn>) -> (r: StatementSynthData)
        ensures
            r@ == (DataModel {
                return_context: returns_model(return_context),
                partial_list: Seq::empty(),
            }),
    {
        let r = StatementSynthData { partial_list: VecDeque::new(), returns: return_context };
        assert(r@.partial_list =~= Seq::empty());
        r
    }
}

impl Default for StatementSynthData {
    fn default() -> (r: StatementSynthData)
        ensures
            r@ == (DataModel { return_context: None, partial_list: Seq::empty() }),
    {
        StatementSynthData::new(None)
    }
}

/// Model of [`Info`].
pub struct InfoModel {
    pub file_name: Seq<char>,
    pub file_content: Seq<char>,
    pub reporter: Seq<DiagModel>,
}

impl InfoModel {
    /// The session with `diags` reported behind what was reported before.
    pub open spec fn reported(self, diags: Seq<DiagModel>) -> InfoModel {
        InfoModel {
            file_name: self.file_name,
            file_content: self.file_content,
            reporter: self.reporter + diags,
        }
    }
}

/// Reporting nothing changes nothing.
pub proof fn lemma_reported_nothing(m: InfoModel)
    ensures
        m.reported(Seq::empty()) == m,
{
    assert(m.reporter + Seq::<DiagModel>::empty() =~= m.reporter);
}

/// Reporting `a` and then `b` is reporting `a` followed by `b`.
pub proof fn lemma_reported_more(m: InfoModel, a: Seq<DiagModel>, b: Seq<DiagModel>)
    ensures
        m.reported(a).reported(b) == m.reported(a + b),
{
    assert((m.reporter + a) + b =~= m.reporter + (a + b));
}

/// One checking session: the file that is checked, and what was found in it.
#[derive(Debug)]
pub struct Info {
    pub file_name: String,
    pub file_content: String,
    pub reporter: Reporter,
}

impl View for Info {
    type V = InfoModel;

    open spec fn view(&self) -> InfoModel {
        InfoModel {
            file_name: self.file_name@,
            file_content: self.file_content@,
            reporter: self.reporter@,
        }
    }
}

impl Info {
    /// A session for the given file, with nothing reported yet.
    pub fn new(file_name: String, file_content: String) -> (r: Info)
        ensures
            r@ == (InfoModel {
                file_name: file_name@,
                file_content: file_content@,
                reporter: Seq::empty(),
            }),
    {
        Info { file_name, file_content, reporter: Reporter::default() }
    }

    /// Report a finding in this session.
    pub fn report(&mut self, d: Diag)
        ensures
            final(self)@ == old(self)@.reported(seq![d@]),
    {
        self.reporter.add(d);
        assert(old(self)@.reporter.push(d@) =~= old(self)@.reporter + seq![d@]);
    }
}

impl Default for Info {
    fn default() -> (r: Info)
        ensures
            r@ == (InfoModel {
                file_name: "unknown"@,
                file_content: ""@,
                reporter: Seq::empty(),
            }),
    {
        Info::new("unknown".to_owned(), "".to_owned())
    }
}

impl PartialEq for Info {
    /// Two sessions are equal when they are for the same file with the same
    /// content, whatever has been reported in them.
    fn eq(&self, other: &Self) -> (r: bool) {
        self.file_name == other.file_name && self.file_content == other.file_content
    }
}

impl PartialEqSpecImpl for Info {
    open spec fn obeys_eq_spec() -> bool {
        true
    }

    open spec fn eq_spec(&self, other: &Self) -> bool {
        self@.file_name == other@.file_name && self@.file_content == other@.file_content
    }
}

} // verus!
