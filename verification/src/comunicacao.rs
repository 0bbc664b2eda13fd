//! Mailboxes between the vehicles and the controller.
//!
//! There are two channels. Vehicles write to a single queue that the
//! controller reads in the order of arrival. The controller writes to one
//! queue per vehicle, found by the vehicle's plate, and each vehicle reads its
//! own queue in the order of arrival. A message is delivered at most once and
//! nothing is acknowledged.
use crate::transito::Via;
use std::collections::HashMap;
use std::collections::VecDeque;
use vstd::prelude::*;

verus! {

/// What a vehicle tells the controller.
#[derive(Clone, Copy, Debug, PartialEq, Eq)]
pub enum MensagemDeVeiculo {
    /// The vehicle has entered the perimeter of `via`.
    Chegada { placa: u64, via: Via, acel_max: i32, acel_min: i32, vel_max: u32, comprimento: u32 },
    /// The vehicle's state at the time it answered a request.
    SituacaoAtual { placa: u64, pos_atual: i64, vel_atual: u32, acel_atual: i32 },
}

/// What the controller tells a vehicle.
#[derive(Clone, Copy, Debug, PartialEq, Eq)]
pub enum MensagemDoControlador {
    /// Adopt `acel` as the new acceleration.
    SetAcel { placa: u64, acel: i32 },
    /// Report the current state.
    PedeSituacao { placa: u64 },
}

/// The messages in transit: the model of a [`Comunicacao`].
pub struct Caixas {
    /// Messages from vehicles that the controller has not read yet, oldest first.
    pub de_veiculos: Seq<MensagemDeVeiculo>,
    /// For every plate, the messages that its vehicle has not read yet, oldest
    /// first. The map is total: a plate nobody wrote to has an empty queue.
    pub do_controlador: Map<u64, Seq<MensagemDoControlador>>,
}

impl Caixas {
    /// No message anywhere.
    pub open spec fn vazias() -> Caixas {
        Caixas {
            de_veiculos: Seq::empty(),
            do_controlador: Map::new(|placa: u64| true, |placa: u64| Seq::empty()),
        }
    }

    /// The queue of the vehicle with this plate.
    pub open spec fn fila(self, placa: u64) -> Seq<MensagemDoControlador> {
        self.do_controlador[placa]
    }

    /// Every plate has a queue.
    pub open spec fn completas(self) -> bool {
        forall|placa: u64| self.do_controlador.dom().contains(placa)
    }

    /// The same mailboxes with `msg` appended to the vehicles' channel.
    pub open spec fn com_aviso(self, msg: MensagemDeVeiculo) -> Caixas {
        Caixas { de_veiculos: self.de_veiculos.push(msg), ..self }
    }

    /// The same mailboxes with `msg` appended to the queue of `placa`.
    pub open spec fn com_ordem(self, placa: u64, msg: MensagemDoControlador) -> Caixas {
        Caixas {
            do_controlador: self.do_controlador.insert(placa, self.fila(placa).push(msg)),
            ..self
        }
    }

    /// The same mailboxes with the queue of `placa` replaced by `fila`.
    pub open spec fn com_fila(self, placa: u64, fila: Seq<MensagemDoControlador>) -> Caixas {
        Caixas { do_controlador: self.do_controlador.insert(placa, fila), ..self }
    }
}

/// The message system between the vehicles and the controller.
pub struct Comunicacao {
    mensagens_de_veiculo: Vec<MensagemDeVeiculo>,
    mensagens_do_controlador: HashMap<u64, VecDeque<MensagemDoControlador>>,
}

impl View for Comunicacao {
    type V = Caixas;

    closed spec fn view(&self) -> Caixas {
        Caixas {
            de_veiculos: self.mensagens_de_veiculo@,
            do_controlador: Map::new(
                |placa: u64| true,
                |placa: u64|
                    if self.mensagens_do_controlador@.contains_key(placa) {
                        self.mensagens_do_controlador@[placa]@
                    } else {
                        Seq::empty()
                    },
            ),
        }
    }
}

impl Comunicacao {
    /// A message system with nothing in transit.
    pub fn new() -> (c: Self)
        ensures
            c@ == Caixas::vazias(),
    {
        let c = Self { mensagens_de_veiculo: Vec::new(), mensagens_do_controlador: HashMap::new() };
        assert(c@.do_controlador =~= Caixas::vazias().do_controlador);
        c
    }

    /// Every plate has a queue, possibly empty.
    pub proof fn lema_completas(&self)
        ensures
            self@.completas(),
    {
    }

    /// A vehicle sends `msg` to the controller.
    pub fn send_por_veiculo(&mut self, msg: MensagemDeVeiculo)
        ensures
            final(self)@ == old(self)@.com_aviso(msg),
    {
        self.mensagens_de_veiculo.push(msg);
    }

    /// The controller sends `msg` to the vehicle with plate `placa`.
    pub fn send_por_controlador(&mut self, placa: u64, msg: MensagemDoControlador)
        ensures
            final(self)@ == old(self)@.com_ordem(placa, msg),
    {
        let lista = self.mensagens_do_controlador.entry(placa).or_insert(VecDeque::new());
        lista.push_back(msg);
        assert(self@.do_controlador =~= old(self)@.com_ordem(placa, msg).do_controlador);
    }

    /// The vehicle with plate `placa` takes the oldest message addressed to
    /// it, if there is one.
    pub fn receive_por_veiculo(&mut self, placa: u64) -> (r: Option<MensagemDoControlador>)
        ensures
            old(self)@.fila(placa).len() == 0 ==> r is None && final(self)@ == old(self)@,
            old(self)@.fila(placa).len() > 0 ==> r == Some(old(self)@.fila(placa).first())
                && final(self)@ == old(self)@.com_fila(placa, old(self)@.fila(placa).drop_first()),
    {
        let r = match self.mensagens_do_controlador.entry(placa) {
            std::collections::hash_map::Entry::Occupied(mut ocupada) => ocupada.get_mut().pop_front(),
            std::collections::hash_map::Entry::Vacant(_) => None,
        };
        assert(self@.do_controlador =~= (if old(self)@.fila(placa).len() == 0 {
            old(self)@.do_controlador
        } else {
            old(self)@.com_fila(placa, old(self)@.fila(placa).drop_first()).do_controlador
        }));
        r
    }

    /// The controller takes the oldest message sent by a vehicle, if there is
    /// one.
    pub fn receive_por_controlador(&mut self) -> (r: Option<MensagemDeVeiculo>)
        ensures
            old(self)@.de_veiculos.len() == 0 ==> r is None && final(self)@ == old(self)@,
            old(self)@.de_veiculos.len() > 0 ==> r == Some(old(self)@.de_veiculos.first())
                && final(self)@ == (Caixas {
                de_veiculos: old(self)@.de_veiculos.drop_first(),
                ..old(self)@
            }),
    {
        if self.mensagens_de_veiculo.len() == 0 {
            None
        } else {
            let msg = self.mensagens_de_veiculo.remove(0);
            Some(msg)
        }
    }
}

} // verus!
