//! The bodies of scanned functions, reduced to what the call scan reads,
//! and the scan itself: every name in call or method-call position, in
//! source order.
use vstd::prelude::*;

verus! {

/// An expression of a function body.
///
/// Every expression kind of the source language maps to exactly one of
/// these: a call, a method call, a path, or any other kind, kept with its
/// sub-expressions in source order (none for a literal).
#[derive(Debug)]
pub enum Expr {
    /// `callee(args)`
    Call(Box<Expr>, Vec<Expr>),
    /// `receiver.method(args)`
    MethodCall(Box<Expr>, String, Vec<Expr>),
    /// A path such as `a::b::c`, by its segments
    Path(Vec<String>),
    /// Any other kind, by its sub-expressions
    Compound(Vec<Expr>),
}

/// The name a call is made by: the last segment of a path callee.
pub open spec fn callee_name(callee: Expr) -> Seq<Seq<char>> {
    match callee {
        Expr::Path(segments) => if segments@.len() > 0 {
            seq![segments@.last()@]
        } else {
            Seq::empty()
        },
        _ => Seq::empty(),
    }
}

/// The names in call or method-call position in an expression, outer
/// calls before the calls nested in them.
pub open spec fn calls_of(e: Expr) -> Seq<Seq<char>>
    decreases e,
{
    match e {
        Expr::Call(callee, args) => callee_name(*callee) + calls_of(*callee) + calls_of_all(args@),
        Expr::MethodCall(receiver, method, args) => seq![method@] + calls_of(*receiver)
            + calls_of_all(args@),
        Expr::Path(_) => Seq::empty(),
        Expr::Compound(children) => calls_of_all(children@),
    }
}

/// The names in call or method-call position in a sequence of expressions.
pub open spec fn calls_of_all(es: Seq<Expr>) -> Seq<Seq<char>>
    decreases es,
{
    if es.len() == 0 {
        Seq::empty()
    } else {
        calls_of_all(es.drop_last()) + calls_of(es.last())
    }
}

/// The text of a sequence of strings.
pub open spec fn strings_view(v: Seq<String>) -> Seq<Seq<char>> {
    v.map_values(|s: String| s@)
}

/// Appends the names in call or method-call position in `e` to `out`.
pub fn collect_calls(e: &Expr, out: &mut Vec<String>)
    ensures
        strings_view(final(out)@) == strings_view(old(out)@) + calls_of(*e),
    decreases e,
{
    match e {
        Expr::Call(callee, args) => {
            match &**callee {
                Expr::Path(segments) => {
                    if segments.len() > 0 {
                        out.push(segments[segments.len() - 1].clone());
                    }
                },
                _ => {},
            }
            assert(strings_view(out@) =~= strings_view(old(out)@) + callee_name(**callee));
            collect_calls(callee, out);
            collect_all_calls(args, out);
            assert(strings_view(out@) =~= strings_view(old(out)@) + calls_of(*e));
        },
        Expr::MethodCall(receiver, method, args) => {
            out.push(method.clone());
            assert(strings_view(out@) =~= strings_view(old(out)@) + seq![method@]);
            collect_calls(receiver, out);
            collect_all_calls(args, out);
            assert(strings_view(out@) =~= strings_view(old(out)@) + calls_of(*e));
        },
        Expr::Path(_) => {
            assert(strings_view(out@) =~= strings_view(old(out)@) + calls_of(*e));
        },
        Expr::Compound(children) => {
            collect_all_calls(children, out);
        },
    }
}

/// Appends the names in call or method-call position in `es` to `out`.
pub fn collect_all_calls(es: &Vec<Expr>, out: &mut Vec<String>)
    ensures
        strings_view(final(out)@) == strings_view(old(out)@) + calls_of_all(es@),
    decreases es,
{
    let mut i: usize = 0;
    while i < es.len()
        invariant
            i <= es.len(),
            strings_view(out@) == strings_view(old(out)@) + calls_of_all(es@.take(i as int)),
        decreases es.len() - i,
    {
        assert(decreases_to!(es => es@[i as int]));
        collect_calls(&es[i], out);
        assert(es@.take(i + 1).drop_last() =~= es@.take(i as int));
        assert(strings_view(out@) =~= strings_view(old(out)@) + calls_of_all(es@.take(i + 1)));
        i = i + 1;
    }
    assert(es@.take(i as int) =~= es@);
}

/// The names in call or method-call position in a function body, in
/// source order.
pub fn calls_in_body(body: &Vec<Expr>) -> (r: Vec<String>)
    ensures
        strings_view(r@) == calls_of_all(body@),
{
    let mut out: Vec<String> = Vec::new();
    collect_all_calls(body, &mut out);
    assert(strings_view(out@) =~= Seq::<Seq<char>>::empty() + calls_of_all(body@));
    out
}

} // verus!
