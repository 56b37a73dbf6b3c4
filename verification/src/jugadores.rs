//! The roster: the game's at-most-two participant slots, in registration
//! order. A slot holds an identity, an optional commitment digest and an
//! optional revealed move; slots are never removed.

use vstd::prelude::*;
use crate::tipos::{Error, Jugada};

verus! {

/// A participant identity, supplied pre-verified by the host.
pub type Cuenta = u64;

/// One participant slot.
pub struct Jugador {
    /// The participant's identity.
    pub cuenta: Cuenta,
    /// The commitment digest, set exactly once by a successful commit.
    pub compromiso: Option<Vec<u8>>,
    /// The revealed move, set exactly once by a successful reveal.
    pub jugada: Option<Jugada>,
}

/// The mathematical image of a slot.
pub ghost struct JugadorV {
    pub cuenta: Cuenta,
    pub compromiso: Option<Seq<u8>>,
    pub jugada: Option<Jugada>,
}

impl View for Jugador {
    type V = JugadorV;

    open spec fn view(&self) -> JugadorV {
        JugadorV {
            cuenta: self.cuenta,
            compromiso: match self.compromiso {
                Some(h) => Some(h@),
                None => None,
            },
            jugada: self.jugada,
        }
    }
}

/// A freshly registered slot: no commitment, no revealed move.
pub open spec fn jugador_nuevo(quien: Cuenta) -> JugadorV {
    JugadorV { cuenta: quien, compromiso: None, jugada: None }
}

/// Whether the slot holds a commitment.
pub open spec fn comprometido(j: JugadorV) -> bool {
    j.compromiso is Some
}

/// Whether the slot holds a revealed move.
pub open spec fn revelado(j: JugadorV) -> bool {
    j.jugada is Some
}

/// Whether the identity owns one of the slots.
pub open spec fn en_lista(js: Seq<JugadorV>, quien: Cuenta) -> bool {
    exists|i: int| 0 <= i < js.len() && js[i].cuenta == quien
}

/// The index of the identity's slot; meaningful where `en_lista` holds and
/// identities are pairwise distinct.
pub open spec fn indice_de(js: Seq<JugadorV>, quien: Cuenta) -> int {
    choose|i: int| 0 <= i < js.len() && js[i].cuenta == quien
}

/// Which error `registrar` returns, if any: a present identity is rejected
/// before a full roster.
pub open spec fn err_registro(js: Seq<JugadorV>, quien: Cuenta) -> Option<Error> {
    if en_lista(js, quien) {
        Some(Error::YaRegistrado)
    } else if js.len() >= 2 {
        Some(Error::JuegoLleno)
    } else {
        None
    }
}

/// The game's participants, in registration order.
pub struct Jugadores {
    lista: Vec<Jugador>,
}

impl View for Jugadores {
    type V = Seq<JugadorV>;

    closed spec fn view(&self) -> Seq<JugadorV> {
        Seq::new(self.lista@.len(), |i: int| self.lista@[i]@)
    }
}

impl Jugadores {
    /// An empty roster.
    pub fn nuevo() -> (r: Jugadores)
        ensures
            r@ == Seq::<JugadorV>::empty(),
    {
        let r = Jugadores { lista: Vec::new() };
        proof {
            assert(r@ =~= Seq::<JugadorV>::empty());
        }
        r
    }

    /// How many participants have registered.
    pub fn len(&self) -> (r: usize)
        ensures
            r == self@.len(),
    {
        self.lista.len()
    }

    /// The slot at a registration position.
    pub fn jugador(&self, i: usize) -> (r: &Jugador)
        requires
            i < self@.len(),
        ensures
            r@ == self@[i as int],
    {
        &self.lista[i]
    }

    /// The first-registered slot, if any.
    pub fn primero(&self) -> (r: Option<&Jugador>)
        ensures
            match r {
                Some(j) => self@.len() > 0 && j@ == self@[0],
                None => self@.len() == 0,
            },
    {
        if self.lista.len() > 0 {
            Some(&self.lista[0])
        } else {
            None
        }
    }

    /// The last-registered slot, if any.
    pub fn ultimo(&self) -> (r: Option<&Jugador>)
        ensures
            match r {
                Some(j) => self@.len() > 0 && j@ == self@[self@.len() - 1],
                None => self@.len() == 0,
            },
    {
        if self.lista.len() > 0 {
            Some(&self.lista[self.lista.len() - 1])
        } else {
            None
        }
    }

    /// Append a fresh slot for an identity, unless it is already present or
    /// the game is full. A rejected registration leaves the roster unchanged.
    pub fn registrar(&mut self, quien: Cuenta) -> (r: Result<(), Error>)
        ensures
            match r {
                Ok(()) => {
                    &&& err_registro(old(self)@, quien) is None
                    &&& final(self)@ == old(self)@.push(jugador_nuevo(quien))
                },
                Err(e) => {
                    &&& Some(e) == err_registro(old(self)@, quien)
                    &&& final(self)@ == old(self)@
                },
            },
    {
        let mut i: usize = 0;
        while i < self.lista.len()
            invariant
                *self == *old(self),
                i <= self@.len(),
                forall|k: int| 0 <= k < i ==> #[trigger] self@[k].cuenta != quien,
            decreases self@.len() - i,
        {
            if self.lista[i].cuenta == quien {
                proof {
                    assert(self@[i as int].cuenta == quien);
                    assert(en_lista(self@, quien));
                }
                return Err(Error::YaRegistrado);
            }
            i += 1;
        }
        if self.lista.len() >= 2 {
            return Err(Error::JuegoLleno);
        }
        let ghost antes = self@;
        self.lista.push(Jugador { cuenta: quien, compromiso: None, jugada: None });
        proof {
            assert(self@ =~= antes.push(jugador_nuevo(quien)));
        }
        Ok(())
    }

    /// Find the registration position of an identity's slot.
    pub fn busca(&self, quien: Cuenta) -> (r: Option<usize>)
        ensures
            match r {
                Some(i) => i < self@.len() && self@[i as int].cuenta == quien,
                None => !en_lista(self@, quien),
            },
    {
        let mut i: usize = 0;
        while i < self.lista.len()
            invariant
                i <= self@.len(),
                forall|k: int| 0 <= k < i ==> #[trigger] self@[k].cuenta != quien,
            decreases self@.len() - i,
        {
            if self.lista[i].cuenta == quien {
                return Some(i);
            }
            i += 1;
        }
        None
    }

    /// Store a commitment digest in the slot at a position.
    pub fn pon_compromiso(&mut self, i: usize, hash: Vec<u8>)
        requires
            i < old(self)@.len(),
        ensures
            final(self)@ == old(self)@.update(
                i as int,
                JugadorV { compromiso: Some(hash@), ..old(self)@[i as int] },
            ),
    {
        let ghost antes = self@;
        self.lista[i].compromiso = Some(hash);
        proof {
            assert(self@ =~= antes.update(
                i as int,
                JugadorV { compromiso: Some(hash@), ..antes[i as int] },
            ));
        }
    }

    /// Store a revealed move in the slot at a position.
    pub fn pon_jugada(&mut self, i: usize, jugada: Jugada)
        requires
            i < old(self)@.len(),
        ensures
            final(self)@ == old(self)@.update(
                i as int,
                JugadorV { jugada: Some(jugada), ..old(self)@[i as int] },
            ),
    {
        let ghost antes = self@;
        self.lista[i].jugada = Some(jugada);
        proof {
            assert(self@ =~= antes.update(
                i as int,
                JugadorV { jugada: Some(jugada), ..antes[i as int] },
            ));
        }
    }
}

/// On a roster of at most two pairwise distinct identities, the slot index
/// of a present identity is unique.
pub proof fn lemma_indice_de(js: Seq<JugadorV>, quien: Cuenta, i: int)
    requires
        js.len() <= 2,
        js.len() == 2 ==> js[0].cuenta != js[1].cuenta,
        0 <= i < js.len(),
        js[i].cuenta == quien,
    ensures
        en_lista(js, quien),
        indice_de(js, quien) == i,
{
    assert(en_lista(js, quien));
    let j = indice_de(js, quien);
    assert(0 <= j < js.len() && js[j].cuenta == quien);
}

/// Registering an identity that is already on the roster always fails
/// `YaRegistrado`, whatever the roster's shape.
pub proof fn lemma_ya_registrado(js: Seq<JugadorV>, quien: Cuenta)
    requires
        en_lista(js, quien),
    ensures
        err_registro(js, quien) == Some(Error::YaRegistrado),
{
}

/// Registering any identity on a roster that already holds two others always
/// fails `JuegoLleno`.
pub proof fn lemma_juego_lleno(js: Seq<JugadorV>, quien: Cuenta)
    requires
        js.len() == 2,
        !en_lista(js, quien),
    ensures
        err_registro(js, quien) == Some(Error::JuegoLleno),
{
}

/// Three pairwise distinct identities, registered in any order as the first,
/// second and third: the first two registrations succeed and the third always
/// fails `JuegoLleno`.
pub proof fn lemma_tres_registros(a: Cuenta, b: Cuenta, c: Cuenta)
    requires
        a != b,
        a != c,
        b != c,
    ensures
        ({
            let l0 = Seq::<JugadorV>::empty();
            let l1 = l0.push(jugador_nuevo(a));
            let l2 = l1.push(jugador_nuevo(b));
            &&& err_registro(l0, a) is None
            &&& err_registro(l1, b) is None
            &&& err_registro(l2, c) == Some(Error::JuegoLleno)
        }),
{
    let l0 = Seq::<JugadorV>::empty();
    let l1 = l0.push(jugador_nuevo(a));
    let l2 = l1.push(jugador_nuevo(b));
    assert(!en_lista(l0, a));
    assert(forall|i: int| 0 <= i < l1.len() ==> #[trigger] l1[i].cuenta == a);
    assert(!en_lista(l1, b));
    assert(forall|i: int| 0 <= i < l2.len() ==> #[trigger] l2[i].cuenta == a || l2[i].cuenta == b);
    assert(!en_lista(l2, c));
}

} // verus!
