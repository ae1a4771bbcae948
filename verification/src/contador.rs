//! The iteration budget: one countdown shared by every ant.

use vstd::prelude::*;

verus! {

/// The number of steps that the ants may still take, all together. Every
/// step of every ant begins by asking this counter for one unit.
#[derive(Debug)]
pub struct Contador {
    pub restante: i64,
}

/// The budget that is left after one request against a budget of `b`: a
/// positive budget goes down by one, any other stays as it is.
pub open spec fn apos_pedido(b: int) -> int {
    if b > 0 {
        b - 1
    } else {
        b
    }
}

/// The budget that is left after `n` requests, one after the other, against a
/// budget that starts at `b`.
pub open spec fn apos_pedidos(b: int, n: nat) -> int
    decreases n,
{
    if n == 0 {
        b
    } else {
        apos_pedido(apos_pedidos(b, (n - 1) as nat))
    }
}

/// How many of `n` requests against a budget that starts at `b` are granted.
pub open spec fn concedidos(b: int, n: nat) -> nat
    decreases n,
{
    if n == 0 {
        0
    } else if apos_pedidos(b, (n - 1) as nat) > 0 {
        concedidos(b, (n - 1) as nat) + 1
    } else {
        concedidos(b, (n - 1) as nat)
    }
}

impl View for Contador {
    type V = int;

    open spec fn view(&self) -> int {
        self.restante as int
    }
}

impl Contador {
    /// A budget of `numero_interacoes` steps. A budget that is not positive
    /// grants nothing.
    pub fn new(numero_interacoes: i64) -> (c: Contador)
        ensures
            c@ == numero_interacoes,
    {
        Contador { restante: numero_interacoes }
    }

    /// What is left of the budget.
    pub fn restante(&self) -> (r: i64)
        ensures
            r == self@,
    {
        self.restante
    }

    /// Whether the budget is used up.
    pub fn esgotado(&self) -> (fim: bool)
        ensures
            fim == (self@ <= 0),
    {
        self.restante <= 0
    }

    /// Check and decrement in one operation: grants one step and takes it off
    /// the budget if any is left, refuses and changes nothing otherwise.
    pub fn consumir(&mut self) -> (concedido: bool)
        ensures
            concedido == (old(self)@ > 0),
            final(self)@ == apos_pedido(old(self)@),
    {
        if self.restante <= 0 {
            false
        } else {
            self.restante = self.restante - 1;
            true
        }
    }
}

/// Of `n` requests against a budget of `b`, the first `b` are granted and no
/// other: the budget never goes below zero, and what was granted and what is
/// left always add up to `b`.
pub proof fn lei_do_orcamento(b: int, n: nat)
    requires
        b >= 0,
    ensures
        concedidos(b, n) == if n <= b { n as int } else { b },
        apos_pedidos(b, n) == b - concedidos(b, n),
        apos_pedidos(b, n) >= 0,
    decreases n,
{
    if n > 0 {
        lei_do_orcamento(b, (n - 1) as nat);
    }
}

/// A budget that starts at zero or below grants nothing and never changes.
pub proof fn lei_do_orcamento_vazio(b: int, n: nat)
    requires
        b <= 0,
    ensures
        concedidos(b, n) == 0,
        apos_pedidos(b, n) == b,
    decreases n,
{
    if n > 0 {
        lei_do_orcamento_vazio(b, (n - 1) as nat);
    }
}

/// Bounded overshoot. Let `a` ants share a budget of `b`, each ant stopping
/// at the first request that it sees refused, so that at most `a` of the `n`
/// requests made so far were refused. Then no more than `b` steps were
/// granted and no more than `b + a` requests were made; and once a request
/// has been refused, exactly `b` steps were granted, so the number of
/// requests lies between `b` and `b + a`.
pub proof fn lei_do_excesso_limitado(b: int, a: nat, n: nat)
    requires
        b >= 0,
        n - concedidos(b, n) <= a,
    ensures
        concedidos(b, n) <= b,
        n <= b + a,
        concedidos(b, n) < n ==> concedidos(b, n) == b && b <= n <= b + a,
{
    lei_do_orcamento(b, n);
}

} // verus!
