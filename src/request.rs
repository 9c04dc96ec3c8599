//! Decoding the parameters of a `GET` request into an operation, and building
//! the request that the GraphQL engine executes.

use std::collections::HashMap;
use vstd::prelude::*;
use crate::engine::{
    extensions_text_parses, json_text_parses, new_request, parse_extensions,
    parse_json, set_extensions, set_operation_name, set_variables, variables_from_json,
};

verus! {

/// The operation of a request: exactly one of a query or a subscription.
pub enum QueryOrSub {
    Subscription(String),
    Query(String),
}

/// Why the parameters of a request do not make an operation.
#[derive(Debug, Clone, Copy, PartialEq, Eq, Structural)]
pub enum DecodeError {
    /// Both `query` and `subscription` are given.
    Conflict,
    /// Neither `query` nor `subscription` is given.
    MissingOperation,
    /// The one operation given has an empty body.
    EmptyOperation,
    /// `variables` is not a JSON value.
    InvalidVariables,
    /// `extensions` is not a JSON object of GraphQL values.
    InvalidExtensions,
}

/// A decoded request: its operation and the optional parts that go with it.
pub struct GraphQLQuery {
    pub query: QueryOrSub,
    pub operation_name: Option<String>,
    pub variables: Option<serde_json::Value>,
    pub extensions: Option<HashMap<String, async_graphql::Value>>,
}

/// What the engine is asked to run: the operation text, with its keyword in
/// front, and the optional parts carried over unchanged.
pub struct EngineRequest {
    pub query: String,
    pub operation_name: Option<String>,
    pub variables: Option<serde_json::Value>,
    pub extensions: Option<HashMap<String, async_graphql::Value>>,
}

/// The value of the first parameter named `key`.
pub open spec fn lookup(ps: Seq<(String, String)>, key: Seq<char>) -> Option<Seq<char>>
    decreases ps.len(),
{
    if ps.len() == 0 {
        None
    } else if ps[0].0@ == key {
        Some(ps[0].1@)
    } else {
        lookup(ps.drop_first(), key)
    }
}

/// The operation that the parameters name, as (is it a query, its body).
pub open spec fn operation_outcome(ps: Seq<(String, String)>) -> Result<
    (bool, Seq<char>),
    DecodeError,
> {
    let q = lookup(ps, "query"@);
    let s = lookup(ps, "subscription"@);
    if q is Some && s is Some {
        Err(DecodeError::Conflict)
    } else if q is Some {
        if q->0.len() == 0 {
            Err(DecodeError::EmptyOperation)
        } else {
            Ok((true, q->0))
        }
    } else if s is Some {
        if s->0.len() == 0 {
            Err(DecodeError::EmptyOperation)
        } else {
            Ok((false, s->0))
        }
    } else {
        Err(DecodeError::MissingOperation)
    }
}

/// The error, if any, that decoding the parameters ends in.
pub open spec fn decode_error(ps: Seq<(String, String)>) -> Option<DecodeError> {
    let vars = lookup(ps, "variables"@);
    let exts = lookup(ps, "extensions"@);
    match operation_outcome(ps) {
        Err(e) => Some(e),
        Ok(_) => if vars is Some && !json_text_parses(vars->0) {
            Some(DecodeError::InvalidVariables)
        } else if exts is Some && !extensions_text_parses(exts->0) {
            Some(DecodeError::InvalidExtensions)
        } else {
            None
        },
    }
}

pub open spec fn opt_view(o: Option<String>) -> Option<Seq<char>> {
    match o {
        Some(s) => Some(s@),
        None => None,
    }
}

/// The value held by a successful parse, if one was made.
pub open spec fn parsed<T, E>(o: Option<Result<T, E>>) -> Option<T> {
    match o {
        Some(Ok(v)) => Some(v),
        _ => None,
    }
}

/// A parse was made and failed.
pub open spec fn parse_failed<T, E>(o: Option<Result<T, E>>) -> bool {
    o is Some && o->0 is Err
}

impl QueryOrSub {
    /// (is it a query, its body).
    pub open spec fn model(self) -> (bool, Seq<char>) {
        match self {
            QueryOrSub::Subscription(b) => (false, b@),
            QueryOrSub::Query(b) => (true, b@),
        }
    }

    /// The operation text handed to the engine: the keyword, a space, the
    /// body.
    pub open spec fn operation_text(self) -> Seq<char> {
        match self {
            QueryOrSub::Subscription(b) => "subscription "@ + b@,
            QueryOrSub::Query(b) => "query "@ + b@,
        }
    }

    pub fn text(self) -> (r: String)
        ensures
            r@ == self.operation_text(),
    {
        match self {
            QueryOrSub::Subscription(b) => {
                let mut t = String::from_str("subscription ");
                t.append(b.as_str());
                t
            },
            QueryOrSub::Query(b) => {
                let mut t = String::from_str("query ");
                t.append(b.as_str());
                t
            },
        }
    }
}

/// Index of the first parameter named `key`.
fn find_param(ps: &Vec<(String, String)>, key: &String) -> (r: Option<usize>)
    ensures
        match r {
            Some(i) => i < ps@.len() && lookup(ps@, key@) == Some(ps@[i as int].1@),
            None => lookup(ps@, key@) is None,
        },
{
    let mut i: usize = 0;
    assert(ps@.subrange(0, ps@.len() as int) =~= ps@);
    while i < ps.len()
        invariant
            i <= ps@.len(),
            lookup(ps@, key@) == lookup(ps@.subrange(i as int, ps@.len() as int), key@),
        decreases ps@.len() - i,
    {
        assert(ps@.subrange(i as int, ps@.len() as int).drop_first() =~= ps@.subrange(
            i + 1,
            ps@.len() as int,
        ));
        if ps[i].0.eq(key) {
            return Some(i);
        }
        i = i + 1;
    }
    assert(ps@.subrange(i as int, ps@.len() as int) =~= Seq::<(String, String)>::empty());
    None
}

/// Both operation keys given: decoding ends in a conflict, before any
/// other parameter is read.
pub proof fn lemma_both_operations_conflict(ps: Seq<(String, String)>)
    requires
        lookup(ps, "query"@) is Some,
        lookup(ps, "subscription"@) is Some,
    ensures
        decode_error(ps) == Some(DecodeError::Conflict),
{
}

/// Neither operation key given: decoding fails.
pub proof fn lemma_no_operation_fails(ps: Seq<(String, String)>)
    requires
        lookup(ps, "query"@) is None,
        lookup(ps, "subscription"@) is None,
    ensures
        decode_error(ps) == Some(DecodeError::MissingOperation),
{
}

/// The value of the first parameter named `key`, copied.
fn param_value(ps: &Vec<(String, String)>, key: &str) -> (r: Option<String>)
    ensures
        opt_view(r) == lookup(ps@, key@),
{
    let k = String::from_str(key);
    match find_param(ps, &k) {
        Some(i) => Some(ps[i].1.clone()),
        None => None,
    }
}

impl GraphQLQuery {
    /// Picks the operation out of the parameters.
    pub fn select_operation(params: &Vec<(String, String)>) -> (r: Result<QueryOrSub, DecodeError>)
        ensures
            match r {
                Ok(op) => operation_outcome(params@) == Ok::<(bool, Seq<char>), DecodeError>(
                    op.model(),
                ),
                Err(e) => operation_outcome(params@) == Err::<(bool, Seq<char>), DecodeError>(e),
            },
    {
        let q = param_value(params, "query");
        let s = param_value(params, "subscription");
        match (q, s) {
            (Some(_), Some(_)) => Err(DecodeError::Conflict),
            (Some(body), None) => {
                if body.as_str().is_empty() {
                    Err(DecodeError::EmptyOperation)
                } else {
                    Ok(QueryOrSub::Query(body))
                }
            },
            (None, Some(body)) => {
                if body.as_str().is_empty() {
                    Err(DecodeError::EmptyOperation)
                } else {
                    Ok(QueryOrSub::Subscription(body))
                }
            },
            (None, None) => Err(DecodeError::MissingOperation),
        }
    }

    /// Puts a decoded request together from the chosen operation, its name,
    /// and the outcome of parsing `variables` and `extensions` (`None` where
    /// the parameter is absent). The first failure, in that order, wins.
    pub fn assemble(
        op: Result<QueryOrSub, DecodeError>,
        operation_name: Option<String>,
        variables: Option<Result<serde_json::Value, serde_json::Error>>,
        extensions: Option<Result<HashMap<String, async_graphql::Value>, serde_json::Error>>,
    ) -> (r: Result<GraphQLQuery, DecodeError>)
        ensures
            op is Err ==> r == Err::<GraphQLQuery, DecodeError>(op->Err_0),
            op is Ok && parse_failed(variables) ==> r == Err::<GraphQLQuery, DecodeError>(
                DecodeError::InvalidVariables,
            ),
            op is Ok && !parse_failed(variables) && parse_failed(extensions) ==> r == Err::<
                GraphQLQuery,
                DecodeError,
            >(DecodeError::InvalidExtensions),
            op is Ok && !parse_failed(variables) && !parse_failed(extensions) ==> r == Ok::<
                GraphQLQuery,
                DecodeError,
            >(
                (GraphQLQuery {
                    query: op->Ok_0,
                    operation_name,
                    variables: parsed(variables),
                    extensions: parsed(extensions),
                }),
            ),
    {
        let query = match op {
            Ok(q) => q,
            Err(e) => return Err(e),
        };
        let variables = match variables {
            Some(Ok(v)) => Some(v),
            Some(Err(_)) => return Err(DecodeError::InvalidVariables),
            None => None,
        };
        let extensions = match extensions {
            Some(Ok(x)) => Some(x),
            Some(Err(_)) => return Err(DecodeError::InvalidExtensions),
            None => None,
        };
        Ok(GraphQLQuery { query, operation_name, variables, extensions })
    }

    /// Decodes the key/value parameters of a request.
    pub fn decode(params: &Vec<(String, String)>) -> (r: Result<GraphQLQuery, DecodeError>)
        ensures
            match r {
                Err(e) => decode_error(params@) == Some(e),
                Ok(g) => {
                    &&& decode_error(params@) is None
                    &&& operation_outcome(params@) == Ok::<(bool, Seq<char>), DecodeError>(
                        g.query.model(),
                    )
                    &&& opt_view(g.operation_name) == lookup(params@, "operationName"@)
                    &&& g.variables is Some == lookup(params@, "variables"@) is Some
                    &&& g.extensions is Some == lookup(params@, "extensions"@) is Some
                },
            },
    {
        let op = GraphQLQuery::select_operation(params);
        let operation_name = param_value(params, "operationName");
        let variables = match param_value(params, "variables") {
            Some(t) => Some(parse_json(&t)),
            None => None,
        };
        let extensions = match param_value(params, "extensions") {
            Some(t) => Some(parse_extensions(&t)),
            None => None,
        };
        GraphQLQuery::assemble(op, operation_name, variables, extensions)
    }

    /// Whether the operation is a query, run once, rather than a
    /// subscription.
    pub fn in_query(&self) -> (r: bool)
        ensures
            r == self.query is Query,
    {
        match self.query {
            QueryOrSub::Query(_) => true,
            QueryOrSub::Subscription(_) => false,
        }
    }

    /// The request for the engine: the operation text with its keyword, and
    /// the rest unchanged.
    pub fn engine_request(self) -> (r: EngineRequest)
        ensures
            r.query@ == self.query.operation_text(),
            r.operation_name == self.operation_name,
            r.variables == self.variables,
            r.extensions == self.extensions,
    {
        EngineRequest {
            query: self.query.text(),
            operation_name: self.operation_name,
            variables: self.variables,
            extensions: self.extensions,
        }
    }

    /// The async-graphql request that runs this operation.
    pub fn into_request(self) -> async_graphql::Request {
        self.engine_request().into_request()
    }
}

impl EngineRequest {
    /// Builds the async-graphql request: the operation text, then each
    /// optional part that is present.
    pub fn into_request(self) -> async_graphql::Request {
        let mut request = new_request(self.query);
        if let Some(name) = self.operation_name {
            request = set_operation_name(request, name);
        }
        if let Some(value) = self.variables {
            request = set_variables(request, variables_from_json(value));
        }
        if let Some(extensions) = self.extensions {
            request = set_extensions(request, extensions);
        }
        request
    }
}


} // verus!
