//! The order in which the vehicles of one lane stand, as the controller sees
//! it.
//!
//! The controller's records are kept by plate, in no order. A strategy needs
//! them lane by lane, the vehicle nearest to the end of the lane first. Two
//! records with the same position are told apart by plate, the smaller one
//! first, so that the order never depends on how the records are stored.
use crate::controlador::Situacao;
use crate::transito::Via;
use std::collections::HashMap;
use vstd::prelude::*;
use vstd::std_specs::iter::IteratorSpec;

verus! {

/// Every record is kept under its own plate.
pub open spec fn chaves_coerentes(m: Map<u64, Situacao>) -> bool {
    forall|k: u64| m.contains_key(k) ==> (#[trigger] m[k]).placa == k
}

/// `a` stands ahead of `b`: it is farther along the lane, or level with it
/// and of smaller plate.
pub open spec fn vem_antes(a: Situacao, b: Situacao) -> bool {
    a.pos_atual > b.pos_atual || (a.pos_atual == b.pos_atual && a.placa < b.placa)
}

/// `f` lists the records of `m` that are on `via`, each once, every one
/// ahead of those that follow it.
pub open spec fn eh_fila(m: Map<u64, Situacao>, via: Via, f: Seq<Situacao>) -> bool {
    &&& forall|i: int|
        0 <= i < f.len() ==> m.contains_key((#[trigger] f[i]).placa) && m[f[i].placa] == f[i]
            && f[i].via == via
    &&& forall|k: u64| m.contains_key(k) && (#[trigger] m[k]).via == via ==> f.contains(m[k])
    &&& forall|i: int, j: int| 0 <= i < j < f.len() ==> vem_antes(#[trigger] f[i], #[trigger] f[j])
}

/// The records of `m` that are on `via`, the one nearest to the end of the
/// lane first. [`lema_fila_unica`] shows that [`eh_fila`] allows one list
/// only, and [`ordena_via`] computes it.
pub open spec fn fila_da_via(m: Map<u64, Situacao>, via: Via) -> Seq<Situacao> {
    choose|f: Seq<Situacao>| eh_fila(m, via, f)
}

/// Place of the vehicle with plate `placa` in `f`.
pub open spec fn lugar(f: Seq<Situacao>, placa: u64) -> int {
    choose|i: int| 0 <= i < f.len() && f[i].placa == placa
}

proof fn lema_prefixo(m: Map<u64, Situacao>, via: Via, f: Seq<Situacao>, g: Seq<Situacao>, n: nat)
    requires
        eh_fila(m, via, f),
        eh_fila(m, via, g),
        n <= f.len(),
    ensures
        n <= g.len(),
        forall|i: int| 0 <= i < n ==> f[i] == g[i],
    decreases n,
{
    if n > 0 {
        lema_prefixo(m, via, f, g, (n - 1) as nat);
        let i = n - 1;
        // The record f[i] is somewhere in g. Ahead of place i the two lists
        // agree, so it is not there; and if it were behind place i, g[i]
        // would stand ahead of it in g and behind it in f.
        assert(g.contains(f[i]));
        let j = choose|j: int| 0 <= j < g.len() && g[j] == f[i];
        assert(f.contains(g[i]));
        let l = choose|l: int| 0 <= l < f.len() && f[l] == g[i];
        if j > i && l > i {
            assert(vem_antes(g[i], g[j]));
            assert(vem_antes(f[i], f[l]));
        }
    }
}

/// A lane has one order only: two lists that both satisfy [`eh_fila`] for
/// the same records and the same lane are equal.
pub proof fn lema_fila_unica(m: Map<u64, Situacao>, via: Via, f: Seq<Situacao>, g: Seq<Situacao>)
    requires
        eh_fila(m, via, f),
        eh_fila(m, via, g),
    ensures
        f == g,
{
    lema_prefixo(m, via, f, g, f.len());
    lema_prefixo(m, via, g, f, g.len());
}

/// In the order of a lane every plate occurs once, so [`lugar`] finds the
/// place of each of its vehicles.
pub proof fn lema_lugar(m: Map<u64, Situacao>, via: Via, f: Seq<Situacao>, i: int)
    requires
        eh_fila(m, via, f),
        0 <= i < f.len(),
    ensures
        lugar(f, f[i].placa) == i,
{
}

/// A list in order stays in order, and keeps its records, when a record is
/// put in before the first one that it stands ahead of.
proof fn lema_inserida(antiga: Seq<Situacao>, nova: Seq<Situacao>, p: int, s: Situacao)
    requires
        0 <= p <= antiga.len(),
        nova == antiga.insert(p, s),
        forall|i: int, j: int|
            0 <= i < j < antiga.len() ==> vem_antes(#[trigger] antiga[i], #[trigger] antiga[j]),
        forall|i: int| 0 <= i < p ==> vem_antes(#[trigger] antiga[i], s),
        p < antiga.len() ==> vem_antes(s, antiga[p]),
    ensures
        forall|i: int, j: int|
            0 <= i < j < nova.len() ==> vem_antes(#[trigger] nova[i], #[trigger] nova[j]),
        forall|i: int| 0 <= i < p ==> nova[i] == antiga[i],
        nova[p] == s,
        forall|i: int| p < i < nova.len() ==> nova[i] == antiga[i - 1],
{
    assert forall|i: int, j: int| 0 <= i < j < nova.len() implies vem_antes(
        #[trigger] nova[i],
        #[trigger] nova[j],
    ) by {
        if i == p && j > p + 1 {
            assert(vem_antes(antiga[p], antiga[j - 1]));
        } else if i < p && j > p {
            assert(vem_antes(antiga[i], antiga[j - 1]));
        } else if i > p {
            assert(vem_antes(antiga[i - 1], antiga[j - 1]));
        } else if j < p {
            assert(vem_antes(antiga[i], antiga[j]));
        }
    }
}

/// Computes [`vem_antes`].
pub fn calcula_vem_antes(a: &Situacao, b: &Situacao) -> (r: bool)
    ensures
        r == vem_antes(*a, *b),
{
    a.pos_atual > b.pos_atual || (a.pos_atual == b.pos_atual && a.placa < b.placa)
}

/// The plates under which `m` holds a record, each once, in no particular
/// order.
pub fn placas(m: &HashMap<u64, Situacao>) -> (r: Vec<u64>)
    ensures
        r@.no_duplicates(),
        forall|k: u64| r@.contains(k) <==> m@.contains_key(k),
{
    broadcast use vstd::std_specs::hash::group_hash_axioms;

    let mut r: Vec<u64> = Vec::new();
    for k in it: m.keys()
        invariant
            it.seq() == vstd::std_specs::hash::spec_keys_iter(m).remaining(),
            r@ == it.seq().take(it.index()).unref(),
    {
        r.push(*k);
    }
    assert(r@ == vstd::std_specs::hash::spec_keys_iter(m).remaining().unref());
    assert(r@.to_set() == m@.dom());
    r
}

/// The records of `situacao` that are on `via`, in the order of the lane.
pub fn ordena_via(situacao: &HashMap<u64, Situacao>, via: Via) -> (f: Vec<Situacao>)
    requires
        chaves_coerentes(situacao@),
    ensures
        eh_fila(situacao@, via, f@),
        f@ == fila_da_via(situacao@, via),
{
    broadcast use vstd::std_specs::hash::group_hash_axioms;

    let chaves = placas(situacao);
    let mut f: Vec<Situacao> = Vec::new();
    let mut n: usize = 0;
    while n < chaves.len()
        invariant
            n <= chaves.len(),
            chaves@.no_duplicates(),
            forall|k: u64| chaves@.contains(k) <==> situacao@.contains_key(k),
            chaves_coerentes(situacao@),
            forall|i: int, j: int| 0 <= i < j < f.len() ==> vem_antes(#[trigger] f[i], #[trigger] f[j]),
            forall|i: int|
                0 <= i < f.len() ==> situacao@.contains_key((#[trigger] f[i]).placa)
                    && situacao@[f[i].placa] == f[i] && f[i].via == via,
            forall|i: int|
                0 <= i < f.len() ==> exists|q: int| 0 <= q < n && chaves[q] == (#[trigger] f[i]).placa,
            forall|q: int|
                0 <= q < n && situacao@[#[trigger] chaves[q]].via == via ==> f@.contains(
                    situacao@[chaves[q]],
                ),
        decreases chaves.len() - n,
    {
        let k = chaves[n];
        assert(chaves@.contains(k));
        let s: Situacao = *situacao.get(&k).unwrap();
        if s.via == via {
            let ghost antiga = f@;
            let mut p: usize = 0;
            while p < f.len() && !calcula_vem_antes(&s, &f[p])
                invariant
                    p <= f.len(),
                    f@ == antiga,
                    forall|i: int| 0 <= i < p ==> vem_antes(#[trigger] f[i], s),
                    forall|i: int|
                        0 <= i < f.len() ==> exists|q: int|
                            0 <= q < n && chaves[q] == (#[trigger] f[i]).placa,
                    chaves@.no_duplicates(),
                    n < chaves.len(),
                    s.placa == chaves[n as int],
                decreases f.len() - p,
            {
                proof {
                    // f[p] came from an earlier plate, so it is not `s`.
                    let q = choose|q: int| 0 <= q < n && chaves[q] == f[p as int].placa;
                    assert(chaves[q] != chaves[n as int]);
                }
                p = p + 1;
            }
            f.insert(p, s);
            proof {
                lema_inserida(antiga, f@, p as int, s);
                assert forall|i: int| 0 <= i < f.len() implies exists|q: int|
                    0 <= q < n + 1 && chaves[q] == (#[trigger] f[i]).placa by {
                    if i < p {
                        let q = choose|q: int| 0 <= q < n && chaves[q] == antiga[i].placa;
                        assert(chaves[q] == f[i].placa);
                    } else if i > p {
                        let q = choose|q: int| 0 <= q < n && chaves[q] == antiga[i - 1].placa;
                        assert(chaves[q] == f[i].placa);
                    } else {
                        assert(chaves[n as int] == f[i].placa);
                    }
                }
                assert forall|q: int|
                    0 <= q < n + 1 && situacao@[#[trigger] chaves[q]].via == via implies f@.contains(
                    situacao@[chaves[q]],
                ) by {
                    if q < n {
                        let i = choose|i: int| 0 <= i < antiga.len() && antiga[i] == situacao@[chaves[q]];
                        assert(f[if i < p { i } else { i + 1 }] == antiga[i]);
                    } else {
                        assert(f[p as int] == s);
                    }
                }
            }
        }
        n = n + 1;
    }
    proof {
        assert forall|k: u64| situacao@.contains_key(k) && (#[trigger] situacao@[k]).via
            == via implies f@.contains(situacao@[k]) by {
            assert(chaves@.contains(k));
            let q = choose|q: int| 0 <= q < chaves.len() && chaves[q] == k;
            assert(situacao@[chaves[q]].via == via);
        }
        lema_fila_unica(situacao@, via, f@, fila_da_via(situacao@, via));
    }
    f
}

} // verus!
