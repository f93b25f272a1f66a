use vstd::prelude::*;

use crate::expression::{expr_same, Expression};
use crate::identifier::Identifier;

verus! {

/// A `for` expression: builds a collection by projecting the items of
/// another collection. It produces either a list or an object.
#[derive(Debug, PartialEq, Eq)]
pub enum ForExpr {
    /// A `for` expression that produces a list.
    List(ForListExpr),
    /// A `for` expression that produces an object.
    Object(ForObjectExpr),
}

/// `a` and `b` are both absent, or both present and the same tree.
pub open spec fn opt_expr_same(a: Option<Expression>, b: Option<Expression>) -> bool
    decreases a,
{
    match a {
        Some(x) => b is Some && expr_same(x, b->Some_0),
        None => b is None,
    }
}

/// `a` and `b` bind the same variables over the same collection expression.
pub open spec fn intro_same(a: ForIntro, b: ForIntro) -> bool
    decreases a,
{
    &&& a.key_var == b.key_var
    &&& a.value_var == b.value_var
    &&& expr_same(a.collection_expr, b.collection_expr)
}

/// `a` and `b` are the same list `for` expression, node by node.
pub open spec fn list_same(a: ForListExpr, b: ForListExpr) -> bool
    decreases a,
{
    &&& intro_same(a.intro, b.intro)
    &&& expr_same(a.element_expr, b.element_expr)
    &&& opt_expr_same(a.cond_expr, b.cond_expr)
}

/// `a` and `b` are the same object `for` expression, node by node.
pub open spec fn object_same(a: ForObjectExpr, b: ForObjectExpr) -> bool
    decreases a,
{
    &&& intro_same(a.intro, b.intro)
    &&& expr_same(a.key_expr, b.key_expr)
    &&& expr_same(a.value_expr, b.value_expr)
    &&& a.grouping == b.grouping
    &&& opt_expr_same(a.cond_expr, b.cond_expr)
}

/// `a` and `b` are the same `for` expression, node by node.
pub open spec fn for_expr_same(a: ForExpr, b: ForExpr) -> bool
    decreases a,
{
    match a {
        ForExpr::List(l) => b is List && list_same(l, b->List_0),
        ForExpr::Object(o) => b is Object && object_same(o, b->Object_0),
    }
}

impl Clone for ForExpr {
    fn clone(&self) -> (r: ForExpr)
        ensures
            for_expr_same(*self, r),
        decreases self,
    {
        match self {
            ForExpr::List(list) => ForExpr::List(list.clone()),
            ForExpr::Object(obj) => ForExpr::Object(obj.clone()),
        }
    }
}

impl From<ForListExpr> for ForExpr {
    fn from(expr: ForListExpr) -> (r: ForExpr)
        ensures
            r == ForExpr::List(expr),
    {
        ForExpr::List(expr)
    }
}

impl vstd::std_specs::convert::FromSpecImpl<ForListExpr> for ForExpr {
    open spec fn obeys_from_spec() -> bool {
        true
    }

    open spec fn from_spec(expr: ForListExpr) -> ForExpr {
        ForExpr::List(expr)
    }
}

impl From<ForObjectExpr> for ForExpr {
    fn from(expr: ForObjectExpr) -> (r: ForExpr)
        ensures
            r == ForExpr::Object(expr),
    {
        ForExpr::Object(expr)
    }
}

impl vstd::std_specs::convert::FromSpecImpl<ForObjectExpr> for ForExpr {
    open spec fn obeys_from_spec() -> bool {
        true
    }

    open spec fn from_spec(expr: ForObjectExpr) -> ForExpr {
        ForExpr::Object(expr)
    }
}

/// A `for` expression that produces a list.
#[derive(Debug, PartialEq, Eq)]
pub struct ForListExpr {
    /// The binding clause: loop variables and the source collection.
    pub intro: ForIntro,
    /// Evaluated once for each element that is kept, giving one entry of the list.
    pub element_expr: Expression,
    /// An optional filter. Elements for which it evaluates to `false` are skipped;
    /// without it every element is kept.
    pub cond_expr: Option<Expression>,
}

impl Clone for ForListExpr {
    fn clone(&self) -> (r: ForListExpr)
        ensures
            list_same(*self, r),
        decreases self,
    {
        ForListExpr {
            intro: self.intro.clone(),
            element_expr: self.element_expr.clone(),
            cond_expr: match &self.cond_expr {
                Some(c) => Some(c.clone()),
                None => None,
            },
        }
    }
}

impl ForListExpr {
    pub open spec fn spec_new(intro: ForIntro, expr: Expression) -> ForListExpr {
        ForListExpr { intro, element_expr: expr, cond_expr: None }
    }

    pub open spec fn spec_with_cond_expr(self, cond_expr: Expression) -> ForListExpr {
        ForListExpr { cond_expr: Some(cond_expr), ..self }
    }

    /// A list `for` expression over `intro` that yields `expr` for each
    /// element, with no filter.
    #[verifier::when_used_as_spec(spec_new)]
    pub fn new(intro: ForIntro, expr: Expression) -> (r: ForListExpr)
        ensures
            r == ForListExpr::spec_new(intro, expr),
    {
        ForListExpr { intro, element_expr: expr, cond_expr: None }
    }

    /// Sets the filter, replacing any earlier one.
    #[verifier::when_used_as_spec(spec_with_cond_expr)]
    pub fn with_cond_expr(self, cond_expr: Expression) -> (r: ForListExpr)
        ensures
            r == self.spec_with_cond_expr(cond_expr),
    {
        Self { cond_expr: Some(cond_expr), ..self }
    }
}

/// A `for` expression that produces an object.
#[derive(Debug, PartialEq, Eq)]
pub struct ForObjectExpr {
    /// The binding clause: loop variables and the source collection.
    pub intro: ForIntro,
    /// Evaluated once for each element that is kept, giving a key of the object.
    pub key_expr: Expression,
    /// Evaluated once for each element that is kept, giving the value for its key.
    pub value_expr: Expression,
    /// In grouping mode the values of elements with equal keys are gathered,
    /// in iteration order, into one list under that key. Otherwise a later
    /// element overwrites an earlier one with the same key.
    pub grouping: bool,
    /// An optional filter. Elements for which it evaluates to `false` are skipped;
    /// without it every element is kept.
    pub cond_expr: Option<Expression>,
}

impl Clone for ForObjectExpr {
    fn clone(&self) -> (r: ForObjectExpr)
        ensures
            object_same(*self, r),
        decreases self,
    {
        ForObjectExpr {
            intro: self.intro.clone(),
            key_expr: self.key_expr.clone(),
            value_expr: self.value_expr.clone(),
            grouping: self.grouping,
            cond_expr: match &self.cond_expr {
                Some(c) => Some(c.clone()),
                None => None,
            },
        }
    }
}

impl ForObjectExpr {
    pub open spec fn spec_new(intro: ForIntro, key_expr: Expression, value_expr: Expression) -> ForObjectExpr {
        ForObjectExpr { intro, key_expr, value_expr, grouping: false, cond_expr: None }
    }

    pub open spec fn spec_with_cond_expr(self, cond_expr: Expression) -> ForObjectExpr {
        ForObjectExpr { cond_expr: Some(cond_expr), ..self }
    }

    pub open spec fn spec_with_grouping(self, yes: bool) -> ForObjectExpr {
        ForObjectExpr { grouping: yes, ..self }
    }

    /// An object `for` expression over `intro` that yields the entry
    /// `key_expr => value_expr` for each element, not grouping, with no filter.
    #[verifier::when_used_as_spec(spec_new)]
    pub fn new(intro: ForIntro, key_expr: Expression, value_expr: Expression) -> (r: ForObjectExpr)
        ensures
            r == ForObjectExpr::spec_new(intro, key_expr, value_expr),
    {
        ForObjectExpr { intro, key_expr, value_expr, grouping: false, cond_expr: None }
    }

    /// Sets the filter, replacing any earlier one.
    #[verifier::when_used_as_spec(spec_with_cond_expr)]
    pub fn with_cond_expr(self, cond_expr: Expression) -> (r: ForObjectExpr)
        ensures
            r == self.spec_with_cond_expr(cond_expr),
    {
        Self { cond_expr: Some(cond_expr), ..self }
    }

    /// Turns grouping mode on or off.
    #[verifier::when_used_as_spec(spec_with_grouping)]
    pub fn with_grouping(self, yes: bool) -> (r: ForObjectExpr)
        ensures
            r == self.spec_with_grouping(yes),
    {
        ForObjectExpr { grouping: yes, ..self }
    }
}

/// The binding clause of a `for` expression: `for k, v in collection`.
#[derive(Debug, PartialEq, Eq)]
pub struct ForIntro {
    /// The optional variable bound to each element's key: the zero-based index
    /// for a list, the key for an object.
    pub key_var: Option<Identifier>,
    /// The variable bound to each element's value.
    pub value_var: Identifier,
    /// An expression that must evaluate to a collection that can be iterated.
    pub collection_expr: Expression,
}

impl Clone for ForIntro {
    fn clone(&self) -> (r: ForIntro)
        ensures
            intro_same(*self, r),
        decreases self,
    {
        ForIntro {
            key_var: match &self.key_var {
                Some(k) => Some(k.clone()),
                None => None,
            },
            value_var: self.value_var.clone(),
            collection_expr: self.collection_expr.clone(),
        }
    }
}

impl ForIntro {
    pub open spec fn spec_new(value: Identifier, expr: Expression) -> ForIntro {
        ForIntro { key_var: None, value_var: value, collection_expr: expr }
    }

    pub open spec fn spec_with_key(self, key: Identifier) -> ForIntro {
        ForIntro { key_var: Some(key), ..self }
    }

    /// Binds `value` to each element of the collection `expr`, with no key variable.
    #[verifier::when_used_as_spec(spec_new)]
    pub fn new(value: Identifier, expr: Expression) -> (r: ForIntro)
        ensures
            r == ForIntro::spec_new(value, expr),
    {
        ForIntro { key_var: None, value_var: value, collection_expr: expr }
    }

    /// Adds the key variable, replacing any earlier one.
    #[verifier::when_used_as_spec(spec_with_key)]
    pub fn with_key(self, key: Identifier) -> (r: ForIntro)
        ensures
            r == self.spec_with_key(key),
    {
        ForIntro { key_var: Some(key), ..self }
    }
}

/// A new intro binds no key variable and holds the given value variable and
/// collection; adding a key sets it and leaves the other fields as they were.
pub proof fn lemma_intro_fields(value: Identifier, collection: Expression, key: Identifier)
    ensures
        ForIntro::new(value, collection).key_var is None,
        ForIntro::new(value, collection).value_var == value,
        ForIntro::new(value, collection).collection_expr == collection,
        ForIntro::new(value, collection).with_key(key).key_var == Some(key),
        ForIntro::new(value, collection).with_key(key).value_var == value,
        ForIntro::new(value, collection).with_key(key).collection_expr == collection,
{
}

/// A new list `for` expression has no filter; setting one makes it present,
/// and setting it twice keeps only the second. The other fields are kept.
pub proof fn lemma_list_cond_expr(intro: ForIntro, expr: Expression, c1: Expression, c2: Expression)
    ensures
        ForListExpr::new(intro, expr).cond_expr is None,
        ForListExpr::new(intro, expr).intro == intro,
        ForListExpr::new(intro, expr).element_expr == expr,
        ForListExpr::new(intro, expr).with_cond_expr(c1).cond_expr == Some(c1),
        ForListExpr::new(intro, expr).with_cond_expr(c1).intro == intro,
        ForListExpr::new(intro, expr).with_cond_expr(c1).element_expr == expr,
        ForListExpr::new(intro, expr).with_cond_expr(c1).with_cond_expr(c2)
            == ForListExpr::new(intro, expr).with_cond_expr(c2),
{
}

/// Setting the filter of any list `for` expression twice keeps only the second.
pub proof fn lemma_list_cond_expr_replaces(l: ForListExpr, c1: Expression, c2: Expression)
    ensures
        l.with_cond_expr(c1).with_cond_expr(c2) == l.with_cond_expr(c2),
{
}

/// A new object `for` expression does not group and has no filter; turning
/// grouping on and then off gives back the same expression.
pub proof fn lemma_object_defaults(
    intro: ForIntro,
    key_expr: Expression,
    value_expr: Expression,
    c1: Expression,
    c2: Expression,
)
    ensures
        ForObjectExpr::new(intro, key_expr, value_expr).grouping == false,
        ForObjectExpr::new(intro, key_expr, value_expr).cond_expr is None,
        ForObjectExpr::new(intro, key_expr, value_expr).intro == intro,
        ForObjectExpr::new(intro, key_expr, value_expr).key_expr == key_expr,
        ForObjectExpr::new(intro, key_expr, value_expr).value_expr == value_expr,
        ForObjectExpr::new(intro, key_expr, value_expr).with_grouping(true).grouping == true,
        ForObjectExpr::new(intro, key_expr, value_expr).with_grouping(true).with_grouping(false)
            == ForObjectExpr::new(intro, key_expr, value_expr),
        ForObjectExpr::new(intro, key_expr, value_expr).with_cond_expr(c1).cond_expr == Some(c1),
        ForObjectExpr::new(intro, key_expr, value_expr).with_cond_expr(c1).with_cond_expr(c2)
            == ForObjectExpr::new(intro, key_expr, value_expr).with_cond_expr(c2),
{
}

/// On any object `for` expression, the last call of `with_grouping` decides
/// the mode and nothing else changes.
pub proof fn lemma_object_grouping_last_wins(o: ForObjectExpr, a: bool, b: bool)
    ensures
        o.with_grouping(a).with_grouping(b) == o.with_grouping(b),
        o.with_grouping(a).grouping == a,
        o.with_grouping(o.grouping) == o,
{
}

/// Converting a list `for` expression gives the `List` variant holding exactly
/// that expression, and converting an object one gives the `Object` variant.
pub proof fn lemma_from_is_lossless(l: ForListExpr, o: ForObjectExpr)
    ensures
        <ForExpr as vstd::std_specs::convert::FromSpec<ForListExpr>>::obeys_from_spec(),
        <ForExpr as vstd::std_specs::convert::FromSpec<ForListExpr>>::from_spec(l) == ForExpr::List(l),
        <ForExpr as vstd::std_specs::convert::FromSpec<ForObjectExpr>>::obeys_from_spec(),
        <ForExpr as vstd::std_specs::convert::FromSpec<ForObjectExpr>>::from_spec(o) == ForExpr::Object(o),
{
}

} // verus!
