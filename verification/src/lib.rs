use vstd::prelude::*;

pub mod ast;
pub mod diagnostics;
pub mod helpers;
pub mod jinja;
pub mod scope;
pub mod span;
pub mod state;
pub mod synth;
pub mod types;

pub use diagnostics::{
    CantReassignLockedDiag, Diag, Diagnostic, DiagnosticType, ExpectedButGotDiag, NotInScopeDiag,
    Reporter, RevealTypeDiag,
};
pub use scope::Scope;
pub use span::TextRange;
pub use state::{Info, StatementSynthData};
pub use synth::support::is_supported_module;
pub use synth::{check, check_statement, synth, synth_annotation};
pub use types::{is_subtype, union, ScopedType, Type, TypeLiteral};

use ast::{stmts_model, Stmt};
use diagnostics::DiagModel;
use scope::ScopeModel;
use state::{lemma_reported_more, lemma_reported_nothing, DataModel, InfoModel};
use synth::statement::{statement_step, statements_from};
use synth::support::all_supported;

verus! {

/// What the parser had to say against a source text, and where.
#[derive(Debug)]
pub struct ParseError {
    pub message: String,
    pub range: TextRange,
}

/// Why a file could not be checked.
#[derive(Debug)]
pub enum Error {
    /// The file could not be read.
    Io(String),
    /// The file does not hold text.
    FromUtf8(String),
    /// The text is no program.
    RuffParse(Vec<ParseError>),
}

/// The checker's state before the first statement: nothing bound, no
/// function entered, nothing queued.
pub open spec fn fresh_data() -> DataModel {
    DataModel { return_context: None, partial_list: Seq::empty() }
}

/// Check the statements of a file, given what the parser made of its
/// content: the statements in source order, or the parser's complaints.
///
/// Where the parser complained nothing is checked and the complaints come
/// back. Else the statements are checked one after another, starting with
/// nothing bound, and the session comes back holding every finding in the
/// order of the walk.
pub fn error_check_file(
    name: String,
    content: String,
    parsed: Result<Vec<Stmt>, Vec<ParseError>>,
) -> (r: Result<Info, Error>)
    requires
        parsed matches Ok(body) ==> statements_from(
            ScopeModel::empty(),
            fresh_data(),
            stmts_model(body@),
            0,
        ).ok,
    ensures
        match parsed {
            Ok(body) => r matches Ok(info) && info@ == (InfoModel {
                file_name: name@,
                file_content: content@,
                reporter: statements_from(
                    ScopeModel::empty(),
                    fresh_data(),
                    stmts_model(body@),
                    0,
                ).diags,
            }),
            Err(errors) => r matches Err(Error::RuffParse(e)) && e == errors,
        },
{
    let body = match parsed {
        Ok(body) => body,
        Err(errors) => {
            return Err(Error::RuffParse(errors));
        },
    };
    let mut scope = Scope::new();
    let mut info = Info::new(name, content);
    let mut data = StatementSynthData::new(None);
    let ghost ss = stmts_model(body@);
    let ghost whole = statements_from(scope@, data@, ss, 0);
    let ghost start = info@;
    let ghost mut done: Seq<DiagModel> = Seq::empty();
    let mut i: usize = 0;
    proof {
        lemma_reported_nothing(info@);
        assert(done + whole.diags =~= whole.diags);
    }
    while i < body.len()
        invariant
            i <= body.len(),
            ss == stmts_model(body@),
            start == (InfoModel {
                file_name: name@,
                file_content: content@,
                reporter: Seq::empty(),
            }),
            info@ == start.reported(done),
            whole == statements_from(ScopeModel::empty(), fresh_data(), ss, 0),
            statements_from(scope@, data@, ss, i as nat).ok,
            whole.diags == done + statements_from(scope@, data@, ss, i as nat).diags,
        decreases body.len() - i,
    {
        assert(ss[i as int] == body@[i as int]@);
        let ghost one = statement_step(scope@, data@, ss[i as int]);
        check_statement(&mut info, &mut data, &mut scope, &body[i]);
        proof {
            lemma_reported_more(start, done, one.diags);
            let rest = statements_from(one.scope, one.data, ss, (i + 1) as nat);
            assert(done + (one.diags + rest.diags) =~= (done + one.diags) + rest.diags);
            done = done + one.diags;
        }
        i += 1;
    }
    proof {
        assert(done + Seq::<DiagModel>::empty() =~= done);
        assert(start.reporter + done =~= done);
    }
    Ok(info)
}

/// Check the statements of a file as [`error_check_file`] does, wherever
/// every form in them is one that the rules cover; where one is not,
/// nothing is checked and nothing comes back.
pub fn check_file(
    name: String,
    content: String,
    parsed: Result<Vec<Stmt>, Vec<ParseError>>,
) -> (r: Option<Result<Info, Error>>)
    ensures
        match parsed {
            Ok(body) => if all_supported(stmts_model(body@)) {
                r matches Some(Ok(info)) && info@ == (InfoModel {
                    file_name: name@,
                    file_content: content@,
                    reporter: statements_from(
                        ScopeModel::empty(),
                        fresh_data(),
                        stmts_model(body@),
                        0,
                    ).diags,
                })
            } else {
                r is None
            },
            Err(errors) => r matches Some(Err(Error::RuffParse(e))) && e == errors,
        },
{
    let supported = match &parsed {
        Ok(body) => is_supported_module(body),
        Err(_) => true,
    };
    if supported {
        Some(error_check_file(name, content, parsed))
    } else {
        None
    }
}

} // verus!
