use hcl_for::{
    BinaryOp, BinaryOperator, Expression, ForExpr, ForIntro, ForListExpr, ForObjectExpr, Identifier,
};

fn ident(name: &str) -> Identifier {
    Identifier::new(name).unwrap()
}

fn var(name: &str) -> Expression {
    Expression::from(ident(name))
}

fn text(s: &str) -> Expression {
    Expression::from(String::from(s))
}

fn numbers(ns: &[i64]) -> Expression {
    Expression::from(ns.iter().map(|n| Expression::from(*n)).collect::<Vec<_>>())
}

fn op(lhs: Expression, operator: BinaryOperator, rhs: Expression) -> Expression {
    Expression::from(BinaryOp { lhs_expr: lhs, operator, rhs_expr: rhs })
}

#[test]
fn intro_new_has_no_key() {
    let intro = ForIntro::new(ident("v"), var("items"));
    assert_eq!(intro.key_var, None);
    assert_eq!(intro.value_var, ident("v"));
    assert_eq!(intro.collection_expr, var("items"));
}

#[test]
fn intro_with_key_keeps_other_fields() {
    let intro = ForIntro::new(ident("v"), var("items")).with_key(ident("k"));
    assert_eq!(intro.key_var, Some(ident("k")));
    assert_eq!(intro.value_var, ident("v"));
    assert_eq!(intro.collection_expr, var("items"));
}

#[test]
fn intro_with_key_replaces_earlier_key() {
    let intro = ForIntro::new(ident("v"), var("items"))
        .with_key(ident("a"))
        .with_key(ident("b"));
    assert_eq!(intro.key_var, Some(ident("b")));
}

#[test]
fn intro_does_not_require_distinct_names() {
    let intro = ForIntro::new(ident("x"), var("items")).with_key(ident("x"));
    assert_eq!(intro.key_var, Some(ident("x")));
    assert_eq!(intro.value_var, ident("x"));
}

#[test]
fn list_new_has_no_filter() {
    let intro = ForIntro::new(ident("x"), var("items"));
    let list = ForListExpr::new(intro, var("x"));
    assert_eq!(list.cond_expr, None);
    assert_eq!(list.element_expr, var("x"));
    assert_eq!(list.intro, ForIntro::new(ident("x"), var("items")));
}

#[test]
fn list_with_cond_expr_sets_filter() {
    let list = ForListExpr::new(ForIntro::new(ident("x"), var("items")), var("x"))
        .with_cond_expr(Expression::from(true));
    assert_eq!(list.cond_expr, Some(Expression::Bool(true)));
    assert_eq!(list.element_expr, var("x"));
}

#[test]
fn list_with_cond_expr_twice_keeps_second() {
    let list = ForListExpr::new(ForIntro::new(ident("x"), var("items")), var("x"))
        .with_cond_expr(Expression::from(true))
        .with_cond_expr(Expression::from(false));
    assert_eq!(list.cond_expr, Some(Expression::Bool(false)));
}

#[test]
fn object_new_defaults() {
    let obj = ForObjectExpr::new(ForIntro::new(ident("v"), var("m")), var("k"), var("v"));
    assert!(!obj.grouping);
    assert_eq!(obj.cond_expr, None);
    assert_eq!(obj.key_expr, var("k"));
    assert_eq!(obj.value_expr, var("v"));
}

#[test]
fn object_grouping_on_then_off() {
    let fresh = ForObjectExpr::new(ForIntro::new(ident("v"), var("m")), var("k"), var("v"));
    let on = ForObjectExpr::new(ForIntro::new(ident("v"), var("m")), var("k"), var("v"))
        .with_grouping(true);
    assert!(on.grouping);
    let off = on.with_grouping(false);
    assert!(!off.grouping);
    assert_eq!(off, fresh);
}

#[test]
fn object_with_cond_expr_twice_keeps_second() {
    let obj = ForObjectExpr::new(ForIntro::new(ident("v"), var("m")), var("k"), var("v"))
        .with_cond_expr(Expression::from(false))
        .with_cond_expr(var("keep"));
    assert_eq!(obj.cond_expr, Some(var("keep")));
    assert!(!obj.grouping);
}

#[test]
fn for_expr_from_list_is_list_variant() {
    let make = || {
        ForListExpr::new(ForIntro::new(ident("x"), var("xs")), var("x"))
            .with_cond_expr(Expression::from(true))
    };
    match ForExpr::from(make()) {
        ForExpr::List(inner) => assert_eq!(inner, make()),
        ForExpr::Object(_) => panic!("expected the list variant"),
    }
}

#[test]
fn for_expr_from_object_is_object_variant() {
    let make = || {
        ForObjectExpr::new(ForIntro::new(ident("v"), var("m")), var("k"), var("v"))
            .with_grouping(true)
    };
    match ForExpr::from(make()) {
        ForExpr::Object(inner) => assert_eq!(inner, make()),
        ForExpr::List(_) => panic!("expected the object variant"),
    }
}

#[test]
fn for_expr_nests_as_expression() {
    let inner = ForExpr::from(ForListExpr::new(ForIntro::new(ident("x"), var("xs")), var("x")));
    let expr = Expression::from(inner);
    match expr {
        Expression::ForExpr(f) => assert!(matches!(*f, ForExpr::List(_))),
        other => panic!("unexpected {other:?}"),
    }
}

#[test]
fn expression_conversions() {
    assert_eq!(Expression::from(true), Expression::Bool(true));
    assert_eq!(Expression::from(-7i64), Expression::Number(-7));
    assert_eq!(text("a"), Expression::String(String::from("a")));
    assert_eq!(var("x"), Expression::Variable(ident("x")));
    assert_eq!(
        numbers(&[1, 2]),
        Expression::Array(vec![Expression::Number(1), Expression::Number(2)])
    );
}

// `[for i, x in [10, 20, 30] : x * 2 if x > 10]`, which evaluates to `[40, 60]`.
#[test]
fn list_form_example_shape() {
    let intro = ForIntro::new(ident("x"), numbers(&[10, 20, 30])).with_key(ident("i"));
    let list = ForListExpr::new(intro, op(var("x"), BinaryOperator::Mul, Expression::from(2i64)))
        .with_cond_expr(op(var("x"), BinaryOperator::Greater, Expression::from(10i64)));
    let expr = ForExpr::from(list);
    let ForExpr::List(list) = expr else { panic!("expected the list variant") };
    assert_eq!(list.intro.key_var, Some(ident("i")));
    assert_eq!(list.intro.value_var, ident("x"));
    assert_eq!(list.intro.collection_expr, numbers(&[10, 20, 30]));
    assert_eq!(
        list.element_expr,
        op(var("x"), BinaryOperator::Mul, Expression::Number(2))
    );
    assert_eq!(
        list.cond_expr,
        Some(op(var("x"), BinaryOperator::Greater, Expression::Number(10)))
    );
}

// `{for e in elems : e.k => e.v}` over `(k="a", v=1), (k="a", v=2)`: the later
// entry overwrites, giving `{"a": 2}`.
#[test]
fn object_form_example_without_grouping() {
    let intro = ForIntro::new(ident("e"), var("elems"));
    let obj = ForObjectExpr::new(intro, var("k"), var("v"));
    let ForExpr::Object(obj) = ForExpr::from(obj) else { panic!("expected the object variant") };
    assert!(!obj.grouping);
    assert_eq!(obj.key_expr, var("k"));
    assert_eq!(obj.value_expr, var("v"));
    assert_eq!(obj.cond_expr, None);
}

// The same with grouping, `{for e in elems : e.k => e.v...}`, gives `{"a": [1, 2]}`.
#[test]
fn object_form_example_with_grouping() {
    let intro = ForIntro::new(ident("e"), var("elems"));
    let obj = ForObjectExpr::new(intro, var("k"), var("v")).with_grouping(true);
    let ForExpr::Object(obj) = ForExpr::from(obj) else { panic!("expected the object variant") };
    assert!(obj.grouping);
    assert_eq!(obj.key_expr, var("k"));
    assert_eq!(obj.value_expr, var("v"));
    assert_eq!(obj.cond_expr, None);
}

#[test]
fn object_key_expr_may_be_text() {
    let obj = ForObjectExpr::new(ForIntro::new(ident("v"), var("m")), text("a"), var("v"));
    assert_eq!(obj.key_expr, Expression::String(String::from("a")));
}

#[test]
fn clone_is_deep_and_equal() {
    let nested = ForExpr::from(ForListExpr::new(ForIntro::new(ident("y"), var("ys")), var("y")));
    let intro = ForIntro::new(ident("x"), numbers(&[1, 2, 3])).with_key(ident("i"));
    let obj = ForObjectExpr::new(intro, var("i"), Expression::from(nested))
        .with_grouping(true)
        .with_cond_expr(op(var("x"), BinaryOperator::NotEq, Expression::Null));
    let expr = ForExpr::from(obj);
    let copy = expr.clone();
    assert_eq!(copy, expr);
    assert_eq!(Expression::from(copy), Expression::from(expr));
}
