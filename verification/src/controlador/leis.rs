//! The laws by which a strategy turns one vehicle's situation into an
//! acceleration.
//!
//! Each law is a specification function on integers and an executable
//! function that computes it. A law never fails: whatever the situation
//! holds, it yields an acceleration.
use crate::aritmetica::lema_produto;
use crate::controlador::Situacao;
use crate::transito::veiculos::VELOCIDADE_CRUZEIRO;
use vstd::prelude::*;

verus! {

/// Gap kept between a stopped vehicle and whatever stands ahead of it, in
/// micrometres.
pub const ESPACAMENTO: i64 = 4_000_000;

/// Velocity under which a vehicle counts as stopped, in micrometres per
/// second. Without this band a vehicle at its stopping place would be told to
/// brake and to hold in turn.
pub const VELOCIDADE_PARADO: u32 = 500;

/// Time a vehicle must stay behind the one ahead of it, in milliseconds.
pub const TEMPO_DE_SEGURANCA: u32 = 2_000;

/// A vehicle that would reach the one ahead of it in less than this time, in
/// milliseconds, both keeping their velocities, has to brake.
pub const HORIZONTE_DE_COLISAO: u32 = 10_000;

/// Farthest stopping place that [`calcula_freada`] accepts, in micrometres
/// behind the crossing.
pub const ALVO_MINIMO: i128 = -0x10_0000_0000_0000_0000_0000_0000;

/// Braking towards a stop at position `alvo`.
///
/// A vehicle at or past `alvo` brakes as hard as it can, unless it is
/// already stopped, and then it holds. A vehicle that has not reached `alvo`
/// takes the deceleration that ends at velocity zero exactly there,
/// `v² / (2·d)` for a distance `d`, but never one harder than its own limit.
pub open spec fn freada(s: Situacao, alvo: int) -> int {
    if s.pos_atual >= alvo {
        if s.vel_atual <= VELOCIDADE_PARADO {
            0
        } else {
            s.acel_min as int
        }
    } else {
        let necessaria = -((s.vel_atual * s.vel_atual) / (2 * (alvo - s.pos_atual)));
        if necessaria < s.acel_min {
            s.acel_min as int
        } else {
            necessaria
        }
    }
}

/// Speed control on a free road: full acceleration under nine tenths of the
/// cruise velocity, full braking over eleven tenths of it, nothing in between.
pub open spec fn livre(s: Situacao) -> int {
    if 10 * s.vel_atual > 11 * VELOCIDADE_CRUZEIRO {
        s.acel_min as int
    } else if 10 * s.vel_atual < 9 * VELOCIDADE_CRUZEIRO {
        s.acel_max as int
    } else {
        0
    }
}

/// Distance between the front of `s` and the rear of `afrente`.
pub open spec fn folga(s: Situacao, afrente: Situacao) -> int {
    afrente.pos_atual - afrente.comprimento - s.pos_atual
}

/// The vehicle `s` is less than [`TEMPO_DE_SEGURANCA`] behind `afrente` at its
/// own velocity.
pub open spec fn perto_demais(s: Situacao, afrente: Situacao) -> bool {
    1000 * folga(s, afrente) < TEMPO_DE_SEGURANCA * s.vel_atual
}

/// The vehicle `s` is faster than `afrente` and would reach it in less than
/// [`HORIZONTE_DE_COLISAO`] if both kept their velocities.
pub open spec fn vai_bater(s: Situacao, afrente: Situacao) -> bool {
    s.vel_atual > afrente.vel_atual && 1000 * folga(s, afrente) < HORIZONTE_DE_COLISAO * (
    s.vel_atual - afrente.vel_atual)
}

/// Speed control behind another vehicle: half of the hardest braking when
/// `afrente` is too near in time or about to be hit, and the law of the free
/// road otherwise.
pub open spec fn seguindo(s: Situacao, afrente: Situacao) -> int {
    if perto_demais(s, afrente) || vai_bater(s, afrente) {
        s.acel_min / 2
    } else {
        livre(s)
    }
}

/// Distance that `s` still has to cover until its rear bumper leaves the
/// crossing. Zero or less when it already has.
pub open spec fn falta_percorrer(s: Situacao) -> int {
    s.comprimento + s.via.travessia() - s.pos_atual
}

/// Whether `s` leaves the crossing within `prazo` milliseconds if from now on
/// it accelerates as hard as it can until it reaches its largest velocity and
/// then keeps that velocity.
///
/// The distance covered in that time is compared with
/// [`falta_percorrer`]. With `v`, `vm` and `a` the velocity, its limit and
/// the acceleration, and `t` the time, the distance is `v·t + a·t²/2` while
/// the limit is not reached, and `vm·t - (vm - v)²/(2·a)` afterwards. A
/// vehicle that cannot accelerate covers `v·t`. Both sides are multiplied out
/// so that nothing is rounded.
pub open spec fn cruza_a_tempo(s: Situacao, prazo: int) -> bool {
    let d = falta_percorrer(s);
    let v = s.vel_atual as int;
    let vm = s.vel_max as int;
    let a = s.acel_max as int;
    if d <= 0 {
        true
    } else if a <= 0 || v >= vm {
        v * prazo >= 1000 * d
    } else if a * prazo <= 1000 * (vm - v) {
        2000 * v * prazo + a * prazo * prazo >= 2_000_000 * d
    } else {
        2 * a * vm * prazo - 1000 * (vm - v) * (vm - v) >= 2000 * a * d
    }
}

/// The record `s` gives limits that make sense: braking is no acceleration
/// and accelerating is no braking.
pub open spec fn limites_em_ordem(s: Situacao) -> bool {
    s.acel_min <= 0 <= s.acel_max
}

/// No law asks of a vehicle an acceleration that its limits exclude.
pub proof fn lema_leis_nos_limites(s: Situacao, afrente: Situacao, alvo: int)
    requires
        limites_em_ordem(s),
    ensures
        s.acel_min <= freada(s, alvo) <= 0,
        s.acel_min <= livre(s) <= s.acel_max,
        s.acel_min <= seguindo(s, afrente) <= s.acel_max,
{
    if s.pos_atual < alvo {
        let quadrado = s.vel_atual * s.vel_atual;
        let dobro = 2 * (alvo - s.pos_atual);
        assert(quadrado / dobro >= 0) by (nonlinear_arith)
            requires
                quadrado >= 0,
                dobro > 0,
        ;
    }
}

/// The two measures of the distance covered in the time `t`, over the
/// velocity `a * t` gained in it.
proof fn lema_ganho(a: int, v: int, vm: int, t: int)
    ensures
        a * (2000 * v * t + a * t * t) == 2000 * v * (a * t) + (a * t) * (a * t),
        1000 * (2 * a * vm * t - 1000 * (vm - v) * (vm - v)) == 2000 * vm * (a * t) - (1000 * (vm
            - v)) * (1000 * (vm - v)),
{
    assert(a * (2000 * v * t + a * t * t) == 2000 * v * (a * t) + (a * t) * (a * t))
        by (nonlinear_arith);
    assert(1000 * (2 * a * vm * t - 1000 * (vm - v) * (vm - v)) == 2000 * vm * (a * t) - (1000 * (
    vm - v)) * (1000 * (vm - v))) by (nonlinear_arith);
}

/// A vehicle that leaves the crossing within some time also leaves it
/// within any longer time.
pub proof fn lema_mais_prazo(s: Situacao, prazo: int, maior: int)
    requires
        0 <= prazo <= maior,
        cruza_a_tempo(s, prazo),
    ensures
        cruza_a_tempo(s, maior),
{
    let d = falta_percorrer(s);
    let v = s.vel_atual as int;
    let vm = s.vel_max as int;
    let a = s.acel_max as int;
    if d <= 0 {
    } else if a <= 0 || v >= vm {
        assert(v * maior >= v * prazo) by (nonlinear_arith)
            requires
                v >= 0,
                prazo <= maior,
        ;
    } else {
        // Let x be the velocity gained in the shorter time, x2 the one gained
        // in the longer time and y the gain that the limit allows, all three
        // in thousandths. The distance covered, times 1000 * a, is
        // 2000 * v * x + x * x while the limit is not reached, and
        // 2000 * vm * x - y * y afterwards. Both grow with x, and they are
        // equal where x is y.
        let x = a * prazo;
        let x2 = a * maior;
        let y = 1000 * (vm - v);
        let antes = 2000 * v * prazo + a * prazo * prazo;
        let depois = 2000 * v * maior + a * maior * maior;
        let antes_no_limite = 2 * a * vm * prazo - 1000 * (vm - v) * (vm - v);
        let depois_no_limite = 2 * a * vm * maior - 1000 * (vm - v) * (vm - v);
        assert(x <= x2) by (nonlinear_arith)
            requires
                x == a * prazo,
                x2 == a * maior,
                a > 0,
                prazo <= maior,
        ;
        lema_ganho(a, v, vm, prazo);
        lema_ganho(a, v, vm, maior);
        if x2 <= y {
            assert(depois >= 2_000_000 * d) by (nonlinear_arith)
                requires
                    a > 0,
                    v >= 0,
                    0 <= x <= x2,
                    antes >= 2_000_000 * d,
                    a * antes == 2000 * v * x + x * x,
                    a * depois == 2000 * v * x2 + x2 * x2,
            ;
        } else if x <= y {
            assert(2000 * v * x + x * x <= 2000 * vm * x2 - y * y) by (nonlinear_arith)
                requires
                    0 <= x <= y < x2,
                    y == 1000 * (vm - v),
                    0 <= v < vm,
            ;
            assert(depois_no_limite >= 2000 * a * d) by (nonlinear_arith)
                requires
                    a > 0,
                    antes >= 2_000_000 * d,
                    a * antes <= 1000 * depois_no_limite,
            ;
        } else {
            assert(depois_no_limite >= antes_no_limite) by (nonlinear_arith)
                requires
                    x <= x2,
                    vm >= 0,
                    1000 * antes_no_limite == 2000 * vm * x - y * y,
                    1000 * depois_no_limite == 2000 * vm * x2 - y * y,
            ;
        }
    }
}

/// Computes [`freada`].
pub fn calcula_freada(s: &Situacao, alvo: i128) -> (r: i32)
    requires
        ALVO_MINIMO <= alvo <= 0,
    ensures
        r == freada(*s, alvo as int),
{
    let pos: i128 = s.pos_atual as i128;
    if pos >= alvo {
        if s.vel_atual <= VELOCIDADE_PARADO {
            0
        } else {
            s.acel_min
        }
    } else {
        let v: i128 = s.vel_atual as i128;
        proof {
            lema_produto(v as int, v as int, 0x1_0000_0000, 0x1_0000_0000);
        }
        let quadrado: i128 = v * v;
        let dobro: i128 = 2 * (alvo - pos);
        let quociente: i128 = quadrado / dobro;
        assert(quociente >= 0) by (nonlinear_arith)
            requires
                quociente == quadrado as int / dobro as int,
                quadrado >= 0,
                dobro > 0,
        ;
        if -quociente < s.acel_min as i128 {
            s.acel_min
        } else {
            (-quociente) as i32
        }
    }
}

/// Computes [`livre`].
pub fn calcula_livre(s: &Situacao) -> (r: i32)
    ensures
        r == livre(*s),
{
    let v: u64 = s.vel_atual as u64;
    let cruzeiro: u64 = VELOCIDADE_CRUZEIRO as u64;
    if 10 * v > 11 * cruzeiro {
        s.acel_min
    } else if 10 * v < 9 * cruzeiro {
        s.acel_max
    } else {
        0
    }
}

/// Computes [`seguindo`].
pub fn calcula_seguindo(s: &Situacao, afrente: &Situacao) -> (r: i32)
    ensures
        r == seguindo(*s, *afrente),
{
    let folga: i128 = afrente.pos_atual as i128 - afrente.comprimento as i128 - s.pos_atual as i128;
    let v: i128 = s.vel_atual as i128;
    let vf: i128 = afrente.vel_atual as i128;
    let seguranca: i128 = TEMPO_DE_SEGURANCA as i128;
    let horizonte: i128 = HORIZONTE_DE_COLISAO as i128;
    proof {
        lema_produto(seguranca as int, v as int, 2_000, 0x1_0000_0000);
        lema_produto(horizonte as int, v - vf, 10_000, 0x1_0000_0000);
    }
    let perto: bool = 1000 * folga < seguranca * v;
    let bate: bool = v > vf && 1000 * folga < horizonte * (v - vf);
    if perto || bate {
        let a: i64 = s.acel_min as i64;
        let metade: i64 = if a >= 0 {
            a / 2
        } else {
            -((1 - a) / 2)
        };
        metade as i32
    } else {
        calcula_livre(s)
    }
}

/// Computes [`cruza_a_tempo`].
pub fn calcula_cruza_a_tempo(s: &Situacao, prazo: u32) -> (r: bool)
    ensures
        r == cruza_a_tempo(*s, prazo as int),
{
    let d: i128 = s.comprimento as i128 + s.via.travessia_da_via() as i128 - s.pos_atual as i128;
    let v: i128 = s.vel_atual as i128;
    let vm: i128 = s.vel_max as i128;
    let a: i128 = s.acel_max as i128;
    let t: i128 = prazo as i128;
    let ghost lim: int = 0x1_0000_0000;
    let ghost limd: int = 0x2_0000_0000_0000_0000;
    if d <= 0 {
        true
    } else if a <= 0 || v >= vm {
        proof {
            lema_produto(v as int, t as int, lim, lim);
        }
        v * t >= 1000 * d
    } else {
        proof {
            lema_produto(a as int, t as int, lim, lim);
        }
        let at: i128 = a * t;
        if at <= 1000 * (vm - v) {
            proof {
                lema_produto(v as int, t as int, lim, lim);
                lema_produto(at as int, t as int, lim * lim, lim);
                assert(a * t * t == at * t) by (nonlinear_arith)
                    requires
                        at == a * t,
                ;
                assert(2000 * v * t == 2000 * (v * t)) by (nonlinear_arith);
            }
            2000 * (v * t) + at * t >= 2_000_000 * d
        } else {
            let falta: i128 = vm - v;
            proof {
                lema_produto(a as int, vm as int, lim, lim);
                lema_produto(a * vm, t as int, lim * lim, lim);
                lema_produto(falta as int, falta as int, lim, lim);
                lema_produto(a as int, d as int, lim, limd);
                assert(2 * a * vm * t == 2 * ((a * vm) * t)) by (nonlinear_arith);
                assert(1000 * (vm - v) * (vm - v) == 1000 * (falta * falta)) by (nonlinear_arith)
                    requires
                        falta == vm - v,
                ;
                assert(2000 * a * d == 2000 * (a * d)) by (nonlinear_arith);
            }
            2 * ((a * vm) * t) - 1000 * (falta * falta) >= 2000 * (a * d)
        }
    }
}

} // verus!
