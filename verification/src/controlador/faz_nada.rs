//! The strategy that leaves every vehicle to itself.
use crate::controlador::fila::placas;
use crate::controlador::{Controlador, Situacao};
use std::collections::HashMap;
use vstd::prelude::*;

verus! {

/// A strategy that wants no acceleration from anybody.
pub struct FazNada {}

impl Controlador for FazNada {
    open spec fn inv(&self) -> bool {
        true
    }

    open spec fn avanca(&self, tempo_decorrido: u32) -> Self {
        *self
    }

    open spec fn escolhe(&self, m: Map<u64, Situacao>, placa: u64) -> int {
        0
    }

    fn new() -> (c: Self) {
        FazNada {  }
    }

    fn estrategia(&mut self, tempo_decorrido: u32, situacao: &mut HashMap<u64, Situacao>) {
        broadcast use vstd::std_specs::hash::group_hash_axioms;

        let chaves = placas(situacao);
        let mut n: usize = 0;
        while n < chaves.len()
            invariant
                n <= chaves.len(),
                chaves@.no_duplicates(),
                forall|k: u64| chaves@.contains(k) <==> old(situacao)@.contains_key(k),
                situacao@.dom() == old(situacao)@.dom(),
                forall|q: int|
                    0 <= q < n ==> situacao@[#[trigger] chaves[q]] == (Situacao {
                        acel_desejada: 0,
                        ..old(situacao)@[chaves[q]]
                    }),
                forall|q: int|
                    n <= q < chaves.len() ==> situacao@[#[trigger] chaves[q]] == old(
                        situacao,
                    )@[chaves[q]],
            decreases chaves.len() - n,
        {
            let k = chaves[n];
            assert(chaves@.contains(k));
            let mut s: Situacao = *situacao.get(&k).unwrap();
            s.acel_desejada = 0;
            situacao.insert(k, s);
            n = n + 1;
        }
        assert forall|k: u64| #[trigger] old(situacao)@.contains_key(k) implies old(
            situacao,
        )@[k].so_muda_desejada(situacao@[k]) && situacao@[k].acel_desejada == 0 by {
            assert(chaves@.contains(k));
            let q = choose|q: int| 0 <= q < chaves.len() && chaves[q] == k;
            assert(situacao@[chaves[q]].acel_desejada == 0);
        }
    }
}

} // verus!
