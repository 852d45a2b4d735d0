pub mod channels;
pub mod meta;
pub mod user;

use vstd::prelude::*;

verus! {

/// A value bound to a `?` of an SQL statement.
pub enum SqlParam {
    Integer(i64),
    Text(String),
}

/// An SQL statement and the values of its `?`s, in order.
pub struct Statement {
    pub sql: &'static str,
    pub params: Vec<SqlParam>,
}

/// A parameter as characters or number, for contracts.
pub enum ParamView {
    Integer(i64),
    Text(Seq<char>),
}

/// The view of a parameter.
pub open spec fn param_view(p: SqlParam) -> ParamView {
    match p {
        SqlParam::Integer(n) => ParamView::Integer(n),
        SqlParam::Text(s) => ParamView::Text(s@),
    }
}

/// The views of the parameters of a statement.
pub open spec fn params_of(s: Statement) -> Seq<ParamView> {
    s.params@.map_values(|p: SqlParam| param_view(p))
}

/// A statement without parameters.
pub fn statement(sql: &'static str) -> (s: Statement)
    ensures
        s.sql@ == sql@,
        params_of(s) == Seq::<ParamView>::empty(),
{
    let s = Statement { sql, params: Vec::new() };
    assert(params_of(s) =~= Seq::<ParamView>::empty());
    s
}

} // verus!
