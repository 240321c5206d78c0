//! The calculator tool's expression grammar. An expression is parsed into
//! a tree here; evaluating it (floating point) happens outside.
//!
//! ```text
//! expr   := term (('+' | '-') term)*
//! term   := factor (('*' | '/') factor)*
//! factor := '-' factor | '+' factor | '(' expr ')'
//!         | name '(' expr ')'          name is sqrt
//!         | number                     digits and dots, a valid float
//! ```
//! Whitespace is allowed between tokens.

use vstd::prelude::*;
use crate::text::{decimal, decimal_chars, push_all, push_str, string_from_chars};

verus! {

/// An expression tree over byte-string number literals.
pub enum Ast {
    Num(Seq<u8>),
    Neg(Box<Ast>),
    Add(Box<Ast>, Box<Ast>),
    Sub(Box<Ast>, Box<Ast>),
    Mul(Box<Ast>, Box<Ast>),
    Div(Box<Ast>, Box<Ast>),
    Sqrt(Box<Ast>),
}

/// A parsed expression.
#[derive(Debug)]
pub enum Expr {
    /// A number literal (ASCII digits and at most one dot).
    Num(Vec<u8>),
    Neg(Box<Expr>),
    Add(Box<Expr>, Box<Expr>),
    Sub(Box<Expr>, Box<Expr>),
    Mul(Box<Expr>, Box<Expr>),
    Div(Box<Expr>, Box<Expr>),
    Sqrt(Box<Expr>),
}

impl View for Expr {
    type V = Ast;

    open spec fn view(&self) -> Ast
        decreases self,
    {
        match self {
            Expr::Num(v) => Ast::Num(v@),
            Expr::Neg(a) => Ast::Neg(Box::new((**a)@)),
            Expr::Add(a, b) => Ast::Add(Box::new((**a)@), Box::new((**b)@)),
            Expr::Sub(a, b) => Ast::Sub(Box::new((**a)@), Box::new((**b)@)),
            Expr::Mul(a, b) => Ast::Mul(Box::new((**a)@), Box::new((**b)@)),
            Expr::Div(a, b) => Ast::Div(Box::new((**a)@), Box::new((**b)@)),
            Expr::Sqrt(a) => Ast::Sqrt(Box::new((**a)@)),
        }
    }
}

/// Distance from `i` to the end of the input (0 past it).
pub open spec fn left(s: Seq<u8>, i: int) -> int {
    if i <= s.len() { s.len() - i } else { 0 }
}

/// The byte at `i`, or 0 past the end.
pub open spec fn peek_at(s: Seq<u8>, i: int) -> u8 {
    if 0 <= i < s.len() { s[i] } else { 0 }
}

/// ASCII whitespace: space, tab, line feed, form feed, carriage return.
pub open spec fn is_ws(b: u8) -> bool {
    b == 32 || b == 9 || b == 10 || b == 12 || b == 13
}

pub open spec fn is_alpha(b: u8) -> bool {
    (65 <= b <= 90) || (97 <= b <= 122)
}

pub open spec fn is_digit_or_dot(b: u8) -> bool {
    (48 <= b <= 57) || b == 46
}

/// Length of the whitespace run at `i`.
pub open spec fn ws_run(s: Seq<u8>, i: int) -> nat
    decreases left(s, i),
{
    if 0 <= i < s.len() && is_ws(s[i]) { 1 + ws_run(s, i + 1) } else { 0 }
}

/// Length of the letter run at `i`.
pub open spec fn alpha_run(s: Seq<u8>, i: int) -> nat
    decreases left(s, i),
{
    if 0 <= i < s.len() && is_alpha(s[i]) { 1 + alpha_run(s, i + 1) } else { 0 }
}

/// Length of the run of digits and dots at `i`.
pub open spec fn num_run(s: Seq<u8>, i: int) -> nat
    decreases left(s, i),
{
    if 0 <= i < s.len() && is_digit_or_dot(s[i]) { 1 + num_run(s, i + 1) } else { 0 }
}

pub open spec fn count_dots(t: Seq<u8>) -> nat
    decreases t.len(),
{
    if t.len() == 0 { 0 } else { count_dots(t.drop_last()) + if t.last() == 46 { 1nat } else { 0nat } }
}

/// A run of digits and dots is a float literal when it has at most one dot
/// and at least one digit.
pub open spec fn valid_float(t: Seq<u8>) -> bool {
    count_dots(t) <= 1 && count_dots(t) < t.len()
}

/// Bytes as characters, one for one.
pub open spec fn byte_chars(t: Seq<u8>) -> Seq<char> {
    t.map_values(|b: u8| b as char)
}

/// A parse result: the tree and the number of bytes consumed, or the
/// error message.
pub type Parsed = Result<(Ast, nat), Seq<char>>;

pub open spec fn shift(r: Parsed, by: int) -> Parsed {
    match r {
        Ok((a, c)) => Ok((a, (c + by) as nat)),
        Err(e) => Err(e),
    }
}

pub open spec fn p_expr(s: Seq<u8>, i: int) -> Parsed
    decreases left(s, i), 4int,
{
    match p_term(s, i) {
        Err(e) => Err(e),
        Ok((lhs, c)) => shift(p_expr_rest(s, i + c, lhs), c as int),
    }
}

pub open spec fn p_expr_rest(s: Seq<u8>, j: int, lhs: Ast) -> Parsed
    decreases left(s, j), 2int,
{
    let k = j + ws_run(s, j);
    let op = peek_at(s, k);
    if op == 43 || op == 45 {
        match p_term(s, k + 1) {
            Err(e) => Err(e),
            Ok((rhs, c)) => {
                let l2 = if op == 43 { Ast::Add(Box::new(lhs), Box::new(rhs)) } else { Ast::Sub(Box::new(lhs), Box::new(rhs)) };
                shift(p_expr_rest(s, k + 1 + c, l2), k + 1 + c - j)
            },
        }
    } else {
        Ok((lhs, (k - j) as nat))
    }
}

pub open spec fn p_term(s: Seq<u8>, i: int) -> Parsed
    decreases left(s, i), 3int,
{
    match p_factor(s, i) {
        Err(e) => Err(e),
        Ok((lhs, c)) => shift(p_term_rest(s, i + c, lhs), c as int),
    }
}

pub open spec fn p_term_rest(s: Seq<u8>, j: int, lhs: Ast) -> Parsed
    decreases left(s, j), 2int,
{
    let k = j + ws_run(s, j);
    let op = peek_at(s, k);
    if op == 42 || op == 47 {
        match p_factor(s, k + 1) {
            Err(e) => Err(e),
            Ok((rhs, c)) => {
                let l2 = if op == 42 { Ast::Mul(Box::new(lhs), Box::new(rhs)) } else { Ast::Div(Box::new(lhs), Box::new(rhs)) };
                shift(p_term_rest(s, k + 1 + c, l2), k + 1 + c - j)
            },
        }
    } else {
        Ok((lhs, (k - j) as nat))
    }
}

pub open spec fn p_factor(s: Seq<u8>, i: int) -> Parsed
    decreases left(s, i), 1int,
{
    let k = i + ws_run(s, i);
    let c = peek_at(s, k);
    if c == 45 {
        match p_factor(s, k + 1) {
            Err(e) => Err(e),
            Ok((a, n)) => Ok((Ast::Neg(Box::new(a)), (k + 1 + n - i) as nat)),
        }
    } else if c == 43 {
        match p_factor(s, k + 1) {
            Err(e) => Err(e),
            Ok((a, n)) => Ok((a, (k + 1 + n - i) as nat)),
        }
    } else if c == 40 {
        match p_expr(s, k + 1) {
            Err(e) => Err(e),
            Ok((a, n)) => {
                let q = k + 1 + n;
                let r = q + ws_run(s, q);
                if peek_at(s, r) != 41 { Err("expected )"@) } else { Ok((a, (r + 1 - i) as nat)) }
            },
        }
    } else if is_alpha(c) {
        let e = k + alpha_run(s, k);
        let name = byte_chars(s.subrange(k, e));
        let q = e + ws_run(s, e);
        if peek_at(s, q) != 40 {
            Err("expected ( after "@ + name)
        } else {
            match p_expr(s, q + 1) {
                Err(m) => Err(m),
                Ok((a, n)) => {
                    let r0 = q + 1 + n;
                    let r = r0 + ws_run(s, r0);
                    if peek_at(s, r) != 41 {
                        Err("expected )"@)
                    } else if name == "sqrt"@ {
                        Ok((Ast::Sqrt(Box::new(a)), (r + 1 - i) as nat))
                    } else {
                        Err("unknown fn "@ + name)
                    }
                },
            }
        }
    } else {
        let e = k + num_run(s, k);
        if e == k {
            Err("unexpected '"@ + seq![c as char] + "'"@)
        } else if !valid_float(s.subrange(k, e)) {
            Err("invalid float literal"@)
        } else {
            Ok((Ast::Num(s.subrange(k, e)), (e - i) as nat))
        }
    }
}

/// The result of parsing a whole input: an expression followed only by
/// whitespace.
pub open spec fn parse_all(s: Seq<u8>) -> Result<Ast, Seq<char>> {
    match p_expr(s, 0) {
        Err(e) => Err(e),
        Ok((a, c)) => {
            let k = c + ws_run(s, c as int);
            if k < s.len() {
                Err("trailing input at pos "@ + decimal(k as nat))
            } else {
                Ok(a)
            }
        },
    }
}

/// A plain integer literal: one or more ASCII digits.
pub open spec fn is_digits(t: Seq<u8>) -> bool {
    t.len() > 0 && forall|j: int| 0 <= j < t.len() ==> 48 <= #[trigger] t[j] <= 57
}

proof fn lemma_count_dots_digits(t: Seq<u8>)
    requires
        forall|j: int| 0 <= j < t.len() ==> 48 <= #[trigger] t[j] <= 57,
    ensures
        count_dots(t) == 0,
    decreases t.len(),
{
    if t.len() > 0 {
        assert forall|j: int| 0 <= j < t.drop_last().len() implies 48 <= #[trigger] t.drop_last()[j] <= 57 by {
            assert(t.drop_last()[j] == t[j]);
        }
        lemma_count_dots_digits(t.drop_last());
    }
}

proof fn lemma_num_run_digits(s: Seq<u8>, i: int, n: int)
    requires
        0 <= i,
        0 <= n,
        i + n <= s.len(),
        forall|j: int| i <= j < i + n ==> 48 <= #[trigger] s[j] <= 57,
        i + n == s.len() || !is_digit_or_dot(s[i + n]),
    ensures
        num_run(s, i) == n,
    decreases n,
{
    if n > 0 {
        lemma_num_run_digits(s, i + 1, n - 1);
    }
}

/// A digit literal followed by `+`, `-` or the end of the input is a term
/// of its own: the number, all of its bytes consumed.
proof fn lemma_literal_term(s: Seq<u8>, i: int, t: Seq<u8>)
    requires
        is_digits(t),
        0 <= i,
        i + t.len() <= s.len(),
        s.subrange(i, i + t.len() as int) == t,
        i + t.len() == s.len() || s[i + t.len()] == 43 || s[i + t.len()] == 45 || s[i + t.len()] == 41,
    ensures
        p_term(s, i) == Ok::<(Ast, nat), Seq<char>>((Ast::Num(t), t.len())),
{
    let e = i + t.len();
    assert(s[i] == t[0]);
    assert(ws_run(s, i) == 0);
    assert forall|j: int| i <= j < e implies 48 <= #[trigger] s[j] <= 57 by {
        assert(s[j] == t[j - i]);
    }
    lemma_num_run_digits(s, i, t.len() as int);
    lemma_count_dots_digits(t);
    assert(p_factor(s, i) == Ok::<(Ast, nat), Seq<char>>((Ast::Num(t), t.len())));
    assert(ws_run(s, e) == 0);
    assert(p_term_rest(s, e, Ast::Num(t)) == Ok::<(Ast, nat), Seq<char>>((Ast::Num(t), 0nat)));
}

/// The node of an additive operator: `+` adds, anything else subtracts.
pub open spec fn additive_node(op: u8, l: Ast, r: Ast) -> Ast {
    if op == 43 {
        Ast::Add(Box::new(l), Box::new(r))
    } else {
        Ast::Sub(Box::new(l), Box::new(r))
    }
}

proof fn lemma_rest_at_end(s: Seq<u8>, x: Ast)
    ensures
        p_expr_rest(s, s.len() as int, x) == Ok::<(Ast, nat), Seq<char>>((x, 0nat)),
{
    assert(ws_run(s, s.len() as int) == 0);
}

proof fn lemma_rest_step(s: Seq<u8>, j: int, lhs: Ast, t: Seq<u8>)
    requires
        0 <= j < s.len(),
        s[j] == 43 || s[j] == 45,
        p_term(s, j + 1) == Ok::<(Ast, nat), Seq<char>>((Ast::Num(t), t.len())),
    ensures
        p_expr_rest(s, j, lhs) == shift(
            p_expr_rest(s, j + 1 + t.len(), additive_node(s[j], lhs, Ast::Num(t))),
            1 + t.len() as int,
        ),
{
    assert(ws_run(s, j) == 0);
}

proof fn lemma_three_terms(s: Seq<u8>, a: Seq<u8>, b: Seq<u8>, c: Seq<u8>, j1: int, j2: int)
    requires
        j1 == a.len(),
        j2 == j1 + 1 + b.len(),
        s.len() == j2 + 1 + c.len(),
        s[j1] == 43 || s[j1] == 45,
        s[j2] == 43 || s[j2] == 45,
        p_term(s, 0) == Ok::<(Ast, nat), Seq<char>>((Ast::Num(a), a.len())),
        p_term(s, j1 + 1) == Ok::<(Ast, nat), Seq<char>>((Ast::Num(b), b.len())),
        p_term(s, j2 + 1) == Ok::<(Ast, nat), Seq<char>>((Ast::Num(c), c.len())),
    ensures
        parse_all(s) == Ok::<Ast, Seq<char>>(
            additive_node(s[j2], additive_node(s[j1], Ast::Num(a), Ast::Num(b)), Ast::Num(c)),
        ),
{
    let n = s.len() as int;
    let first = additive_node(s[j1], Ast::Num(a), Ast::Num(b));
    let whole = additive_node(s[j2], first, Ast::Num(c));
    lemma_rest_at_end(s, whole);
    lemma_rest_step(s, j2, first, c);
    let r2 = p_expr_rest(s, j2, first);
    assert(r2 == Ok::<(Ast, nat), Seq<char>>((whole, (1 + c.len()) as nat)));
    lemma_rest_step(s, j1, Ast::Num(a), b);
    let r1 = p_expr_rest(s, j1, Ast::Num(a));
    assert(r1 == Ok::<(Ast, nat), Seq<char>>((whole, (n - j1) as nat)));
    assert(p_expr(s, 0) == Ok::<(Ast, nat), Seq<char>>((whole, n as nat)));
    assert(ws_run(s, n) == 0);
}

/// Law: `+` and `-` group to the left. Whatever the operators and the
/// integer literals `a`, `b`, `c`, the input `a o1 b o2 c` parses as
/// `(a o1 b) o2 c`; so `10-4-3` is `Sub(Sub(10, 4), 3)`.
pub proof fn lemma_additive_ops_group_left(a: Seq<u8>, b: Seq<u8>, c: Seq<u8>, o1: u8, o2: u8)
    requires
        is_digits(a),
        is_digits(b),
        is_digits(c),
        o1 == 43 || o1 == 45,
        o2 == 43 || o2 == 45,
    ensures
        parse_all(a + seq![o1] + b + seq![o2] + c) == Ok::<Ast, Seq<char>>(
            additive_node(o2, additive_node(o1, Ast::Num(a), Ast::Num(b)), Ast::Num(c)),
        ),
{
    let s = a + seq![o1] + b + seq![o2] + c;
    let la = a.len() as int;
    let lb = b.len() as int;
    let lc = c.len() as int;
    let j1 = la;
    let j2 = la + 1 + lb;
    assert(s.len() == la + 1 + lb + 1 + lc);
    assert(s.subrange(0, la) =~= a);
    assert(s.subrange(j1 + 1, j1 + 1 + lb) =~= b);
    assert(s.subrange(j2 + 1, j2 + 1 + lc) =~= c);
    assert(s[j1] == o1);
    assert(s[j2] == o2);
    lemma_literal_term(s, 0, a);
    lemma_literal_term(s, j1 + 1, b);
    lemma_literal_term(s, j2 + 1, c);
    lemma_three_terms(s, a, b, c, j1, j2);
}

/// The node of a multiplicative operator: `*` multiplies, anything else
/// divides.
pub open spec fn multiplicative_node(op: u8, l: Ast, r: Ast) -> Ast {
    if op == 42 {
        Ast::Mul(Box::new(l), Box::new(r))
    } else {
        Ast::Div(Box::new(l), Box::new(r))
    }
}

/// A digit literal followed by an operator or the end of the input is a
/// factor of its own.
proof fn lemma_literal_factor(s: Seq<u8>, i: int, t: Seq<u8>)
    requires
        is_digits(t),
        0 <= i,
        i + t.len() <= s.len(),
        s.subrange(i, i + t.len() as int) == t,
        i + t.len() == s.len() || s[i + t.len()] == 42 || s[i + t.len()] == 47 || s[i + t.len()] == 43 || s[i
            + t.len()] == 45,
    ensures
        p_factor(s, i) == Ok::<(Ast, nat), Seq<char>>((Ast::Num(t), t.len())),
{
    let e = i + t.len();
    assert(s[i] == t[0]);
    assert(ws_run(s, i) == 0);
    assert forall|j: int| i <= j < e implies 48 <= #[trigger] s[j] <= 57 by {
        assert(s[j] == t[j - i]);
    }
    lemma_num_run_digits(s, i, t.len() as int);
    lemma_count_dots_digits(t);
}

proof fn lemma_term_rest_end(s: Seq<u8>, j: int, x: Ast)
    requires
        0 <= j <= s.len(),
        j == s.len() || s[j] == 43 || s[j] == 45,
    ensures
        p_term_rest(s, j, x) == Ok::<(Ast, nat), Seq<char>>((x, 0nat)),
{
    assert(ws_run(s, j) == 0);
}

proof fn lemma_term_rest_step(s: Seq<u8>, j: int, lhs: Ast, t: Seq<u8>)
    requires
        0 <= j < s.len(),
        s[j] == 42 || s[j] == 47,
        p_factor(s, j + 1) == Ok::<(Ast, nat), Seq<char>>((Ast::Num(t), t.len())),
    ensures
        p_term_rest(s, j, lhs) == shift(
            p_term_rest(s, j + 1 + t.len(), multiplicative_node(s[j], lhs, Ast::Num(t))),
            1 + t.len() as int,
        ),
{
    assert(ws_run(s, j) == 0);
}

proof fn lemma_three_factors(s: Seq<u8>, a: Seq<u8>, b: Seq<u8>, c: Seq<u8>, j1: int, j2: int)
    requires
        j1 == a.len(),
        j2 == j1 + 1 + b.len(),
        s.len() == j2 + 1 + c.len(),
        s[j1] == 42 || s[j1] == 47,
        s[j2] == 42 || s[j2] == 47,
        p_factor(s, 0) == Ok::<(Ast, nat), Seq<char>>((Ast::Num(a), a.len())),
        p_factor(s, j1 + 1) == Ok::<(Ast, nat), Seq<char>>((Ast::Num(b), b.len())),
        p_factor(s, j2 + 1) == Ok::<(Ast, nat), Seq<char>>((Ast::Num(c), c.len())),
    ensures
        parse_all(s) == Ok::<Ast, Seq<char>>(
            multiplicative_node(s[j2], multiplicative_node(s[j1], Ast::Num(a), Ast::Num(b)), Ast::Num(c)),
        ),
{
    let n = s.len() as int;
    let first = multiplicative_node(s[j1], Ast::Num(a), Ast::Num(b));
    let whole = multiplicative_node(s[j2], first, Ast::Num(c));
    lemma_term_rest_end(s, n, whole);
    lemma_term_rest_step(s, j2, first, c);
    let r2 = p_term_rest(s, j2, first);
    assert(r2 == Ok::<(Ast, nat), Seq<char>>((whole, (1 + c.len()) as nat)));
    lemma_term_rest_step(s, j1, Ast::Num(a), b);
    let r1 = p_term_rest(s, j1, Ast::Num(a));
    assert(r1 == Ok::<(Ast, nat), Seq<char>>((whole, (n - j1) as nat)));
    assert(p_term(s, 0) == Ok::<(Ast, nat), Seq<char>>((whole, n as nat)));
    lemma_rest_at_end(s, whole);
    assert(p_expr(s, 0) == Ok::<(Ast, nat), Seq<char>>((whole, n as nat)));
    assert(ws_run(s, n) == 0);
}

/// Law: `*` and `/` group to the left. Whatever the operators and the
/// integer literals `a`, `b`, `c`, the input `a o1 b o2 c` parses as
/// `(a o1 b) o2 c`; so `8/4/2` is `Div(Div(8, 4), 2)`.
pub proof fn lemma_multiplicative_ops_group_left(a: Seq<u8>, b: Seq<u8>, c: Seq<u8>, o1: u8, o2: u8)
    requires
        is_digits(a),
        is_digits(b),
        is_digits(c),
        o1 == 42 || o1 == 47,
        o2 == 42 || o2 == 47,
    ensures
        parse_all(a + seq![o1] + b + seq![o2] + c) == Ok::<Ast, Seq<char>>(
            multiplicative_node(o2, multiplicative_node(o1, Ast::Num(a), Ast::Num(b)), Ast::Num(c)),
        ),
{
    let s = a + seq![o1] + b + seq![o2] + c;
    let la = a.len() as int;
    let lb = b.len() as int;
    let lc = c.len() as int;
    let j1 = la;
    let j2 = la + 1 + lb;
    assert(s.len() == la + 1 + lb + 1 + lc);
    assert(s.subrange(0, la) =~= a);
    assert(s.subrange(j1 + 1, j1 + 1 + lb) =~= b);
    assert(s.subrange(j2 + 1, j2 + 1 + lc) =~= c);
    assert(s[j1] == o1);
    assert(s[j2] == o2);
    lemma_literal_factor(s, 0, a);
    lemma_literal_factor(s, j1 + 1, b);
    lemma_literal_factor(s, j2 + 1, c);
    lemma_three_factors(s, a, b, c, j1, j2);
}

/// Law: `*` and `/` bind tighter than `+` and `-`. For integer literals
/// `a`, `b`, `c`, `a + b * c` parses as `a + (b * c)` and `a * b + c` as
/// `(a * b) + c`.
pub proof fn lemma_products_bind_tighter(a: Seq<u8>, b: Seq<u8>, c: Seq<u8>)
    requires
        is_digits(a),
        is_digits(b),
        is_digits(c),
    ensures
        parse_all(a + seq![43u8] + b + seq![42u8] + c) == Ok::<Ast, Seq<char>>(
            Ast::Add(Box::new(Ast::Num(a)), Box::new(Ast::Mul(Box::new(Ast::Num(b)), Box::new(Ast::Num(c))))),
        ),
        parse_all(a + seq![42u8] + b + seq![43u8] + c) == Ok::<Ast, Seq<char>>(
            Ast::Add(Box::new(Ast::Mul(Box::new(Ast::Num(a)), Box::new(Ast::Num(b)))), Box::new(Ast::Num(c))),
        ),
{
    lemma_sum_of_product(a, b, c);
    lemma_product_then_sum(a, b, c);
}

proof fn lemma_sum_of_product(a: Seq<u8>, b: Seq<u8>, c: Seq<u8>)
    requires
        is_digits(a),
        is_digits(b),
        is_digits(c),
    ensures
        parse_all(a + seq![43u8] + b + seq![42u8] + c) == Ok::<Ast, Seq<char>>(
            Ast::Add(Box::new(Ast::Num(a)), Box::new(Ast::Mul(Box::new(Ast::Num(b)), Box::new(Ast::Num(c))))),
        ),
{
    let s = a + seq![43u8] + b + seq![42u8] + c;
    let la = a.len() as int;
    let lb = b.len() as int;
    let lc = c.len() as int;
    let j1 = la;
    let j2 = la + 1 + lb;
    let n = s.len() as int;
    assert(n == la + 1 + lb + 1 + lc);
    assert(s.subrange(0, la) =~= a);
    assert(s.subrange(j1 + 1, j1 + 1 + lb) =~= b);
    assert(s.subrange(j2 + 1, j2 + 1 + lc) =~= c);
    assert(s[j1] == 43u8);
    assert(s[j2] == 42u8);
    lemma_literal_term(s, 0, a);
    lemma_literal_factor(s, j1 + 1, b);
    lemma_literal_factor(s, j2 + 1, c);
    let prod = Ast::Mul(Box::new(Ast::Num(b)), Box::new(Ast::Num(c)));
    lemma_term_rest_end(s, n, prod);
    lemma_term_rest_step(s, j2, Ast::Num(b), c);
    assert(p_term_rest(s, j2, Ast::Num(b)) == Ok::<(Ast, nat), Seq<char>>((prod, (1 + lc) as nat)));
    assert(p_term(s, j1 + 1) == Ok::<(Ast, nat), Seq<char>>((prod, (n - j1 - 1) as nat)));
    let whole = Ast::Add(Box::new(Ast::Num(a)), Box::new(prod));
    lemma_rest_at_end(s, whole);
    assert(ws_run(s, j1) == 0);
    assert(p_expr_rest(s, j1, Ast::Num(a)) == Ok::<(Ast, nat), Seq<char>>((whole, (n - j1) as nat)));
    assert(p_expr(s, 0) == Ok::<(Ast, nat), Seq<char>>((whole, n as nat)));
    assert(ws_run(s, n) == 0);
}

proof fn lemma_product_then_sum(a: Seq<u8>, b: Seq<u8>, c: Seq<u8>)
    requires
        is_digits(a),
        is_digits(b),
        is_digits(c),
    ensures
        parse_all(a + seq![42u8] + b + seq![43u8] + c) == Ok::<Ast, Seq<char>>(
            Ast::Add(Box::new(Ast::Mul(Box::new(Ast::Num(a)), Box::new(Ast::Num(b)))), Box::new(Ast::Num(c))),
        ),
{
    let s = a + seq![42u8] + b + seq![43u8] + c;
    let la = a.len() as int;
    let lb = b.len() as int;
    let lc = c.len() as int;
    let j1 = la;
    let j2 = la + 1 + lb;
    let n = s.len() as int;
    assert(n == la + 1 + lb + 1 + lc);
    assert(s.subrange(0, la) =~= a);
    assert(s.subrange(j1 + 1, j1 + 1 + lb) =~= b);
    assert(s.subrange(j2 + 1, j2 + 1 + lc) =~= c);
    assert(s[j1] == 42u8);
    assert(s[j2] == 43u8);
    lemma_literal_factor(s, 0, a);
    lemma_literal_factor(s, j1 + 1, b);
    lemma_literal_term(s, j2 + 1, c);
    let prod = Ast::Mul(Box::new(Ast::Num(a)), Box::new(Ast::Num(b)));
    lemma_term_rest_end(s, j2, prod);
    lemma_term_rest_step(s, j1, Ast::Num(a), b);
    assert(p_term_rest(s, j1, Ast::Num(a)) == Ok::<(Ast, nat), Seq<char>>((prod, (1 + lb) as nat)));
    assert(p_term(s, 0) == Ok::<(Ast, nat), Seq<char>>((prod, j2 as nat)));
    let whole = Ast::Add(Box::new(prod), Box::new(Ast::Num(c)));
    lemma_rest_at_end(s, whole);
    lemma_rest_step(s, j2, prod, c);
    assert(p_expr_rest(s, j2, prod) == Ok::<(Ast, nat), Seq<char>>((whole, (n - j2) as nat)));
    assert(p_expr(s, 0) == Ok::<(Ast, nat), Seq<char>>((whole, n as nat)));
    assert(ws_run(s, n) == 0);
}

proof fn lemma_rest_step_any(s: Seq<u8>, j: int, lhs: Ast, x: Ast, m: nat)
    requires
        0 <= j < s.len(),
        s[j] == 43 || s[j] == 45,
        p_term(s, j + 1) == Ok::<(Ast, nat), Seq<char>>((x, m)),
    ensures
        p_expr_rest(s, j, lhs) == shift(p_expr_rest(s, j + 1 + m, additive_node(s[j], lhs, x)), 1 + m as int),
{
    assert(ws_run(s, j) == 0);
}

proof fn lemma_rest_before_close(s: Seq<u8>, j: int, x: Ast)
    requires
        0 <= j < s.len(),
        s[j] == 41,
    ensures
        p_expr_rest(s, j, x) == Ok::<(Ast, nat), Seq<char>>((x, 0nat)),
{
    assert(ws_run(s, j) == 0);
}

/// A parenthesised sum of two literals, closing the input, is one term.
proof fn lemma_paren_term(s: Seq<u8>, p: int, b: Seq<u8>, c: Seq<u8>, j2: int, q: int)
    requires
        is_digits(b),
        is_digits(c),
        0 <= p,
        j2 == p + 1 + b.len(),
        q == j2 + 1 + c.len(),
        s.len() == q + 1,
        s[p] == 40u8,
        s[j2] == 43 || s[j2] == 45,
        s[q] == 41u8,
        s.subrange(p + 1, j2) == b,
        s.subrange(j2 + 1, q) == c,
    ensures
        p_term(s, p) == Ok::<(Ast, nat), Seq<char>>(
            (additive_node(s[j2], Ast::Num(b), Ast::Num(c)), (s.len() - p) as nat),
        ),
{
    let n = s.len() as int;
    let lc = c.len() as int;
    lemma_literal_term(s, p + 1, b);
    lemma_literal_term(s, j2 + 1, c);
    let inner = additive_node(s[j2], Ast::Num(b), Ast::Num(c));
    lemma_rest_before_close(s, q, inner);
    lemma_rest_step(s, j2, Ast::Num(b), c);
    assert(p_expr_rest(s, j2, Ast::Num(b)) == Ok::<(Ast, nat), Seq<char>>((inner, (1 + lc) as nat)));
    assert(p_expr(s, p + 1) == Ok::<(Ast, nat), Seq<char>>((inner, (q - p - 1) as nat)));
    assert(ws_run(s, p) == 0);
    assert(ws_run(s, q) == 0);
    assert(p_factor(s, p) == Ok::<(Ast, nat), Seq<char>>((inner, (n - p) as nat)));
    assert(ws_run(s, n) == 0);
    assert(p_term_rest(s, n, inner) == Ok::<(Ast, nat), Seq<char>>((inner, 0nat)));
}

/// Law: parentheses group first. For integer literals `a`, `b`, `c` and
/// additive operators, `a o1 (b o2 c)` parses as `a o1 (b o2 c)`: the
/// parenthesised part is one operand, whatever the grouping without them.
pub proof fn lemma_parentheses_group(a: Seq<u8>, b: Seq<u8>, c: Seq<u8>, o1: u8, o2: u8)
    requires
        is_digits(a),
        is_digits(b),
        is_digits(c),
        o1 == 43 || o1 == 45,
        o2 == 43 || o2 == 45,
    ensures
        parse_all(a + seq![o1, 40u8] + b + seq![o2] + c + seq![41u8]) == Ok::<Ast, Seq<char>>(
            additive_node(o1, Ast::Num(a), additive_node(o2, Ast::Num(b), Ast::Num(c))),
        ),
{
    let s = a + seq![o1, 40u8] + b + seq![o2] + c + seq![41u8];
    let la = a.len() as int;
    let lb = b.len() as int;
    let lc = c.len() as int;
    let j1 = la;
    let p = la + 1;
    let j2 = la + 2 + lb;
    let q = j2 + 1 + lc;
    let n = s.len() as int;
    assert(n == q + 1);
    assert(s.subrange(0, la) =~= a);
    assert(s.subrange(p + 1, j2) =~= b);
    assert(s.subrange(j2 + 1, q) =~= c);
    assert(s[j1] == o1);
    assert(s[p] == 40u8);
    assert(s[j2] == o2);
    assert(s[q] == 41u8);
    lemma_literal_term(s, 0, a);
    lemma_paren_term(s, p, b, c, j2, q);
    let inner = additive_node(o2, Ast::Num(b), Ast::Num(c));
    let whole = additive_node(o1, Ast::Num(a), inner);
    lemma_rest_at_end(s, whole);
    lemma_rest_step_any(s, j1, Ast::Num(a), inner, (n - p) as nat);
    assert(p_expr_rest(s, j1, Ast::Num(a)) == Ok::<(Ast, nat), Seq<char>>((whole, (n - j1) as nat)));
    assert(p_expr(s, 0) == Ok::<(Ast, nat), Seq<char>>((whole, n as nat)));
    assert(ws_run(s, n) == 0);
}

/// Law: a leading minus negates its own operand only. For integer
/// literals `a`, `b` and an additive operator, `-a o b` parses as
/// `(-a) o b`.
pub proof fn lemma_unary_minus_binds_tightest(a: Seq<u8>, b: Seq<u8>, o: u8)
    requires
        is_digits(a),
        is_digits(b),
        o == 43 || o == 45,
    ensures
        parse_all(seq![45u8] + a + seq![o] + b) == Ok::<Ast, Seq<char>>(
            additive_node(o, Ast::Neg(Box::new(Ast::Num(a))), Ast::Num(b)),
        ),
{
    let s = seq![45u8] + a + seq![o] + b;
    let la = a.len() as int;
    let lb = b.len() as int;
    let j = 1 + la;
    let n = s.len() as int;
    assert(n == j + 1 + lb);
    assert(s[0] == 45u8);
    assert(s.subrange(1, 1 + la) =~= a);
    assert(s.subrange(j + 1, j + 1 + lb) =~= b);
    assert(s[j] == o);
    lemma_literal_factor(s, 1, a);
    let neg = Ast::Neg(Box::new(Ast::Num(a)));
    assert(ws_run(s, 0) == 0);
    assert(p_factor(s, 0) == Ok::<(Ast, nat), Seq<char>>((neg, j as nat)));
    assert(ws_run(s, j) == 0);
    assert(p_term_rest(s, j, neg) == Ok::<(Ast, nat), Seq<char>>((neg, 0nat)));
    assert(p_term(s, 0) == Ok::<(Ast, nat), Seq<char>>((neg, j as nat)));
    lemma_literal_term(s, j + 1, b);
    let whole = additive_node(o, neg, Ast::Num(b));
    lemma_rest_at_end(s, whole);
    lemma_rest_step(s, j, neg, b);
    assert(p_expr_rest(s, j, neg) == Ok::<(Ast, nat), Seq<char>>((whole, (n - j) as nat)));
    assert(p_expr(s, 0) == Ok::<(Ast, nat), Seq<char>>((whole, n as nat)));
}

proof fn lemma_shift_shift(r: Parsed, a: int, b: int)
    requires
        a >= 0,
        b >= 0,
    ensures
        shift(shift(r, a), b) == shift(r, a + b),
{
}

fn peek(s: &Vec<u8>, i: usize) -> (b: u8)
    ensures
        b == peek_at(s@, i as int),
{
    if i < s.len() { s[i] } else { 0 }
}

fn byte_is_ws(b: u8) -> (r: bool)
    ensures
        r == is_ws(b),
{
    b == 32 || b == 9 || b == 10 || b == 12 || b == 13
}

fn byte_is_alpha(b: u8) -> (r: bool)
    ensures
        r == is_alpha(b),
{
    (65 <= b && b <= 90) || (97 <= b && b <= 122)
}

fn byte_is_num(b: u8) -> (r: bool)
    ensures
        r == is_digit_or_dot(b),
{
    (48 <= b && b <= 57) || b == 46
}

/// Position after the whitespace at `i`.
fn skip_ws(s: &Vec<u8>, i: usize) -> (k: usize)
    requires
        i <= s@.len(),
    ensures
        k == i + ws_run(s@, i as int),
        k <= s@.len(),
{
    let mut k = i;
    while k < s.len() && byte_is_ws(s[k])
        invariant
            i <= k <= s@.len(),
            ws_run(s@, i as int) == (k - i) + ws_run(s@, k as int),
        decreases s.len() - k,
    {
        k += 1;
    }
    k
}

fn alpha_end(s: &Vec<u8>, i: usize) -> (k: usize)
    requires
        i <= s@.len(),
    ensures
        k == i + alpha_run(s@, i as int),
        k <= s@.len(),
{
    let mut k = i;
    while k < s.len() && byte_is_alpha(s[k])
        invariant
            i <= k <= s@.len(),
            alpha_run(s@, i as int) == (k - i) + alpha_run(s@, k as int),
        decreases s.len() - k,
    {
        k += 1;
    }
    k
}

fn num_end(s: &Vec<u8>, i: usize) -> (k: usize)
    requires
        i <= s@.len(),
    ensures
        k == i + num_run(s@, i as int),
        k <= s@.len(),
{
    let mut k = i;
    while k < s.len() && byte_is_num(s[k])
        invariant
            i <= k <= s@.len(),
            num_run(s@, i as int) == (k - i) + num_run(s@, k as int),
        decreases s.len() - k,
    {
        k += 1;
    }
    k
}

fn bytes_between(s: &Vec<u8>, a: usize, b: usize) -> (v: Vec<u8>)
    requires
        a <= b <= s@.len(),
    ensures
        v@ == s@.subrange(a as int, b as int),
{
    let mut v: Vec<u8> = Vec::new();
    let mut k = a;
    while k < b
        invariant
            a <= k <= b <= s@.len(),
            v@ == s@.subrange(a as int, k as int),
        decreases b - k,
    {
        v.push(s[k]);
        k += 1;
    }
    v
}

fn chars_of_bytes(t: &Vec<u8>) -> (v: Vec<char>)
    ensures
        v@ == byte_chars(t@),
{
    let mut v: Vec<char> = Vec::new();
    let mut k: usize = 0;
    while k < t.len()
        invariant
            k <= t@.len(),
            v@ == byte_chars(t@.take(k as int)),
        decreases t.len() - k,
    {
        v.push(t[k] as char);
        assert(byte_chars(t@.take(k + 1)) =~= byte_chars(t@.take(k as int)).push(t@[k as int] as char));
        k += 1;
    }
    assert(t@.take(t@.len() as int) == t@);
    v
}

fn float_ok(t: &Vec<u8>) -> (r: bool)
    ensures
        r == valid_float(t@),
{
    let mut dots: usize = 0;
    let mut k: usize = 0;
    while k < t.len()
        invariant
            k <= t@.len(),
            dots == count_dots(t@.take(k as int)),
            dots <= k,
        decreases t.len() - k,
    {
        assert(t@.take(k + 1).drop_last() == t@.take(k as int));
        if t[k] == 46 {
            dots += 1;
        }
        k += 1;
    }
    assert(t@.take(t@.len() as int) == t@);
    dots <= 1 && dots < t.len()
}

fn error_text(head: &str, tail: &[char]) -> (s: String)
    ensures
        s@ == head@ + tail@,
{
    let mut v: Vec<char> = Vec::new();
    push_str(&mut v, head);
    push_all(&mut v, tail);
    string_from_chars(v.as_slice())
}

/// Parses `expr` from position `i`; on success returns the tree and the
/// position after it.
pub fn parse_expr(s: &Vec<u8>, i: usize) -> (r: Result<(Expr, usize), String>)
    requires
        i <= s@.len(),
    ensures
        match r {
            Ok((e, j)) => i <= j <= s@.len() && p_expr(s@, i as int) == Ok::<(Ast, nat), Seq<char>>((e@, (j - i) as nat)),
            Err(m) => p_expr(s@, i as int) == Err::<(Ast, nat), Seq<char>>(m@),
        },
    decreases s@.len() - i, 4int,
{
    let (first, j0) = match parse_term(s, i) {
        Ok(x) => x,
        Err(e) => {
            return Err(e);
        },
    };
    let mut lhs = first;
    let mut j = j0;
    loop
        invariant
            i <= j <= s@.len(),
            p_expr(s@, i as int) == shift(p_expr_rest(s@, j as int, lhs@), j - i),
        decreases s@.len() - j,
    {
        let k = skip_ws(s, j);
        let op = peek(s, k);
        if op == 43 || op == 45 {
            let len = s.len();
            assert(k < len);
            let (rhs, j2) = match parse_term(s, k + 1) {
                Ok(x) => x,
                Err(e) => {
                    return Err(e);
                },
            };
            let ghost old_lhs = lhs@;
            lhs = if op == 43 { Expr::Add(Box::new(lhs), Box::new(rhs)) } else { Expr::Sub(Box::new(lhs), Box::new(rhs)) };
            proof {
                lemma_shift_shift(p_expr_rest(s@, j2 as int, lhs@), j2 - j, j - i);
            }
            j = j2;
        } else {
            return Ok((lhs, k));
        }
    }
}

/// Parses `term` from position `i`.
pub fn parse_term(s: &Vec<u8>, i: usize) -> (r: Result<(Expr, usize), String>)
    requires
        i <= s@.len(),
    ensures
        match r {
            Ok((e, j)) => i <= j <= s@.len() && p_term(s@, i as int) == Ok::<(Ast, nat), Seq<char>>((e@, (j - i) as nat)),
            Err(m) => p_term(s@, i as int) == Err::<(Ast, nat), Seq<char>>(m@),
        },
    decreases s@.len() - i, 3int,
{
    let (first, j0) = match parse_factor(s, i) {
        Ok(x) => x,
        Err(e) => {
            return Err(e);
        },
    };
    let mut lhs = first;
    let mut j = j0;
    loop
        invariant
            i <= j <= s@.len(),
            p_term(s@, i as int) == shift(p_term_rest(s@, j as int, lhs@), j - i),
        decreases s@.len() - j,
    {
        let k = skip_ws(s, j);
        let op = peek(s, k);
        if op == 42 || op == 47 {
            let len = s.len();
            assert(k < len);
            let (rhs, j2) = match parse_factor(s, k + 1) {
                Ok(x) => x,
                Err(e) => {
                    return Err(e);
                },
            };
            lhs = if op == 42 { Expr::Mul(Box::new(lhs), Box::new(rhs)) } else { Expr::Div(Box::new(lhs), Box::new(rhs)) };
            proof {
                lemma_shift_shift(p_term_rest(s@, j2 as int, lhs@), j2 - j, j - i);
            }
            j = j2;
        } else {
            return Ok((lhs, k));
        }
    }
}

/// Parses `factor` from position `i`.
#[verifier::rlimit(60)]
pub fn parse_factor(s: &Vec<u8>, i: usize) -> (r: Result<(Expr, usize), String>)
    requires
        i <= s@.len(),
    ensures
        match r {
            Ok((e, j)) => i <= j <= s@.len() && p_factor(s@, i as int) == Ok::<(Ast, nat), Seq<char>>((e@, (j - i) as nat)),
            Err(m) => p_factor(s@, i as int) == Err::<(Ast, nat), Seq<char>>(m@),
        },
    decreases s@.len() - i, 1int,
{
    let len = s.len();
    let k = skip_ws(s, i);
    let c = peek(s, k);
    if c == 45 {
        assert(k < len);
        match parse_factor(s, k + 1) {
            Ok((a, j)) => Ok((Expr::Neg(Box::new(a)), j)),
            Err(e) => Err(e),
        }
    } else if c == 43 {
        assert(k < len);
        parse_factor(s, k + 1)
    } else if c == 40 {
        assert(k < len);
        match parse_expr(s, k + 1) {
            Ok((a, q)) => {
                let r = skip_ws(s, q);
                if peek(s, r) != 41 {
                    Err("expected )".to_string())
                } else {
                    Ok((a, r + 1))
                }
            },
            Err(e) => Err(e),
        }
    } else if byte_is_alpha(c) {
        let e = alpha_end(s, k);
        let name_bytes = bytes_between(s, k, e);
        let name = chars_of_bytes(&name_bytes);
        let q = skip_ws(s, e);
        if peek(s, q) != 40 {
            return Err(error_text("expected ( after ", name.as_slice()));
        }
        assert(q < len);
        match parse_expr(s, q + 1) {
            Err(m) => Err(m),
            Ok((a, r0)) => {
                let r = skip_ws(s, r0);
                if peek(s, r) != 41 {
                    Err("expected )".to_string())
                } else if crate::text::chars_eq(name.as_slice(), crate::text::chars_of("sqrt").as_slice()) {
                    Ok((Expr::Sqrt(Box::new(a)), r + 1))
                } else {
                    Err(error_text("unknown fn ", name.as_slice()))
                }
            },
        }
    } else {
        let e = num_end(s, k);
        if e == k {
            let shown: Vec<char> = vec![c as char, '\''];
            let mut v: Vec<char> = Vec::new();
            push_str(&mut v, "unexpected '");
            push_all(&mut v, shown.as_slice());
            proof {
                reveal_strlit("'");
                assert(shown@ == seq![c as char] + "'"@);
                assert(v@ =~= "unexpected '"@ + seq![c as char] + "'"@);
            }
            Err(string_from_chars(v.as_slice()))
        } else {
            let lit = bytes_between(s, k, e);
            if !float_ok(&lit) {
                Err("invalid float literal".to_string())
            } else {
                Ok((Expr::Num(lit), e))
            }
        }
    }
}

/// Parses a whole expression; anything but whitespace after it is an
/// error naming its position.
pub fn parse(expr: &str) -> (r: Result<Expr, String>)
    ensures
        match r {
            Ok(e) => parse_all(crate::loader::utf8(expr@)) == Ok::<Ast, Seq<char>>(e@),
            Err(m) => parse_all(crate::loader::utf8(expr@)) == Err::<Ast, Seq<char>>(m@),
        },
{
    let mut p = Parser::new(expr);
    let e = match p.expr() {
        Ok(e) => e,
        Err(m) => {
            return Err(m);
        },
    };
    p.skip();
    if p.i < p.s.len() {
        let mut v: Vec<char> = Vec::new();
        push_str(&mut v, "trailing input at pos ");
        push_all(&mut v, decimal_chars(p.i as u64).as_slice());
        return Err(string_from_chars(v.as_slice()));
    }
    Ok(e)
}

/// A cursor over the bytes of an expression.
#[derive(Debug)]
pub struct Parser {
    pub s: Vec<u8>,
    pub i: usize,
}

impl Parser {
    /// A parser at the start of `s`.
    pub fn new(s: &str) -> (p: Parser)
        ensures
            p.s@ == crate::loader::utf8(s@),
            p.i == 0,
    {
        let b = s.as_bytes();
        let mut v: Vec<u8> = Vec::new();
        let mut k: usize = 0;
        while k < b.len()
            invariant
                k <= b@.len(),
                v@ == b@.take(k as int),
            decreases b.len() - k,
        {
            v.push(b[k]);
            assert(b@.take(k + 1) == b@.take(k as int).push(b@[k as int]));
            k += 1;
        }
        assert(b@.take(b@.len() as int) == b@);
        Parser { s: v, i: 0 }
    }

    /// The current byte, or 0 at the end.
    pub fn peek(&self) -> (b: u8)
        ensures
            b == peek_at(self.s@, self.i as int),
    {
        peek(&self.s, self.i)
    }

    /// Skips ASCII whitespace.
    pub fn skip(&mut self)
        requires
            old(self).i <= old(self).s@.len(),
        ensures
            final(self).s == old(self).s,
            final(self).i == old(self).i + ws_run(old(self).s@, old(self).i as int),
            final(self).i <= final(self).s@.len(),
    {
        self.i = skip_ws(&self.s, self.i);
    }

    /// Parses an expression at the cursor and moves past it.
    pub fn expr(&mut self) -> (r: Result<Expr, String>)
        requires
            old(self).i <= old(self).s@.len(),
        ensures
            final(self).s == old(self).s,
            final(self).i <= final(self).s@.len(),
            match r {
                Ok(e) => p_expr(old(self).s@, old(self).i as int) == Ok::<(Ast, nat), Seq<char>>(
                    (e@, (final(self).i - old(self).i) as nat),
                ),
                Err(m) => p_expr(old(self).s@, old(self).i as int) == Err::<(Ast, nat), Seq<char>>(m@),
            },
    {
        match parse_expr(&self.s, self.i) {
            Ok((e, j)) => {
                self.i = j;
                Ok(e)
            },
            Err(m) => Err(m),
        }
    }
}

} // verus!
