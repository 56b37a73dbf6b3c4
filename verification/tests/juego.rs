use piedra_papel_tijera::compromiso::compromiso;
use piedra_papel_tijera::juego::{Event, Juego};
use piedra_papel_tijera::tipos::{CantidadDeJugadores, Error, Etapa, Jugada};

#[test]
fn registrar_funciona() {
    let mut juego = Juego::nuevo();

    assert!(juego.registrar(1).is_ok());
    assert!(juego.registrar(2).is_ok());

    let jugada_1 = Jugada::Papel;
    let nonce_1: u128 = 719836158792659817324695;
    let hash_1 = compromiso(jugada_1, nonce_1);

    assert_eq!(juego.commit(3, hash_1.clone()).unwrap_err(), Error::NoEsJugador);
    assert!(juego.commit(1, hash_1.clone()).is_ok());

    assert_eq!(juego.etapa(), Etapa::Commit(CantidadDeJugadores::Uno));

    let jugada_2 = Jugada::Piedra;
    let nonce_2: u128 = 4501394651647051645007136;
    let hash_2 = compromiso(jugada_2, nonce_2);

    assert!(juego.commit(2, hash_2.clone()).is_ok());

    let primero = juego.jugadores().primero().unwrap();
    assert_eq!(primero.cuenta, 1);
    assert_eq!(primero.compromiso, Some(hash_1));
    assert_eq!(primero.jugada, None);
    let ultimo = juego.jugadores().ultimo().unwrap();
    assert_eq!(ultimo.cuenta, 2);
    assert_eq!(ultimo.compromiso, Some(hash_2));
    assert_eq!(ultimo.jugada, None);

    assert_eq!(juego.etapa(), Etapa::Reveal(CantidadDeJugadores::Cero));

    assert_eq!(juego.revelar(3, Jugada::Papel, 0).unwrap_err(), Error::NoEsJugador);

    assert!(juego.revelar(1, jugada_1, nonce_1).is_ok());
    assert_eq!(juego.revelar(2, jugada_1, nonce_1).unwrap_err(), Error::HashIncorrecto);

    assert!(juego.revelar(2, jugada_2, nonce_2).is_ok());
    assert_eq!(juego.etapa(), Etapa::Fin);

    let fin = juego.finalizar_juego().unwrap();
    assert!(matches!(fin, Event::Fin { ganador: Some(1) }));
}

#[test]
fn eventos_de_cada_accion() {
    let mut juego = Juego::nuevo();

    assert!(matches!(juego.registrar(7).unwrap(), Event::Registrado { quien: 7 }));
    assert!(matches!(juego.registrar(8).unwrap(), Event::Registrado { quien: 8 }));

    let h1 = compromiso(Jugada::Piedra, 1);
    match juego.commit(7, h1.clone()).unwrap() {
        Event::Comprometido { quien, hash } => {
            assert_eq!(quien, 7);
            assert_eq!(hash, h1);
        }
        otro => panic!("evento inesperado: {:?}", otro),
    }
    let h2 = compromiso(Jugada::Papel, 2);
    assert!(juego.commit(8, h2).is_ok());

    match juego.revelar(7, Jugada::Piedra, 1).unwrap() {
        Event::Revelado { quien, jugada } => {
            assert_eq!(quien, 7);
            assert_eq!(jugada, Jugada::Piedra);
        }
        otro => panic!("evento inesperado: {:?}", otro),
    }
    assert!(juego.revelar(8, Jugada::Papel, 2).is_ok());

    // Paper beats rock: the second-registered player wins.
    assert!(matches!(juego.finalizar_juego().unwrap(), Event::Fin { ganador: Some(8) }));
}

#[test]
fn registrar_mismo_jugador_falla() {
    let mut juego = Juego::nuevo();
    assert!(juego.registrar(1).is_ok());
    assert_eq!(juego.registrar(1).unwrap_err(), Error::YaRegistrado);
    // The failed registration changed nothing.
    assert_eq!(juego.etapa(), Etapa::EsperandoJugadores(CantidadDeJugadores::Uno));
    assert_eq!(juego.jugadores().len(), 1);
}

#[test]
fn etapa_incorrecta_antes_y_despues() {
    let mut juego = Juego::nuevo();

    // Commit, reveal and finalize before their legal stage.
    assert_eq!(juego.commit(1, vec![0u8; 32]).unwrap_err(), Error::EtapaIncorrecta);
    assert_eq!(juego.revelar(1, Jugada::Piedra, 0).unwrap_err(), Error::EtapaIncorrecta);
    assert_eq!(juego.finalizar_juego().unwrap_err(), Error::EtapaIncorrecta);
    // The failing actions changed nothing.
    assert_eq!(juego.etapa(), Etapa::EsperandoJugadores(CantidadDeJugadores::Cero));
    assert_eq!(juego.jugadores().len(), 0);

    // Play a full game.
    assert!(juego.registrar(1).is_ok());
    assert!(juego.registrar(2).is_ok());
    // Register and reveal after their legal stage.
    assert_eq!(juego.registrar(3).unwrap_err(), Error::EtapaIncorrecta);
    assert_eq!(juego.revelar(1, Jugada::Piedra, 0).unwrap_err(), Error::EtapaIncorrecta);
    let h1 = compromiso(Jugada::Piedra, 11);
    let h2 = compromiso(Jugada::Papel, 22);
    assert!(juego.commit(1, h1).is_ok());
    assert!(juego.commit(2, h2).is_ok());
    // Commit after its legal stage.
    assert_eq!(juego.commit(1, vec![1u8; 32]).unwrap_err(), Error::EtapaIncorrecta);
    assert!(juego.revelar(1, Jugada::Piedra, 11).is_ok());
    assert!(juego.revelar(2, Jugada::Papel, 22).is_ok());

    // Past the terminal stage every mutating action is rejected.
    assert_eq!(juego.registrar(3).unwrap_err(), Error::EtapaIncorrecta);
    assert_eq!(juego.commit(1, vec![1u8; 32]).unwrap_err(), Error::EtapaIncorrecta);
    assert_eq!(juego.revelar(1, Jugada::Piedra, 11).unwrap_err(), Error::EtapaIncorrecta);
    assert_eq!(juego.etapa(), Etapa::Fin);
}

#[test]
fn ya_comprometido_falla() {
    let mut juego = Juego::nuevo();
    assert!(juego.registrar(1).is_ok());
    assert!(juego.registrar(2).is_ok());
    let h = compromiso(Jugada::Tijera, 5);
    assert!(juego.commit(1, h.clone()).is_ok());
    assert_eq!(juego.commit(1, h.clone()).unwrap_err(), Error::YaComprometido);
    // The failed commit changed nothing: still one commitment stored.
    assert_eq!(juego.etapa(), Etapa::Commit(CantidadDeJugadores::Uno));
    assert_eq!(juego.jugadores().primero().unwrap().compromiso, Some(h));
    assert_eq!(juego.jugadores().ultimo().unwrap().compromiso, None);
}

#[test]
fn ya_revelado_falla() {
    let mut juego = Juego::nuevo();
    assert!(juego.registrar(1).is_ok());
    assert!(juego.registrar(2).is_ok());
    assert!(juego.commit(1, compromiso(Jugada::Piedra, 3)).is_ok());
    assert!(juego.commit(2, compromiso(Jugada::Papel, 4)).is_ok());
    assert!(juego.revelar(1, Jugada::Piedra, 3).is_ok());
    // A second reveal by the same participant is rejected.
    assert_eq!(juego.revelar(1, Jugada::Piedra, 3).unwrap_err(), Error::YaRevelado);
    assert_eq!(juego.etapa(), Etapa::Reveal(CantidadDeJugadores::Uno));
    assert_eq!(juego.jugadores().primero().unwrap().jugada, Some(Jugada::Piedra));
}

#[test]
fn hash_incorrecto_no_cambia_estado() {
    let mut juego = Juego::nuevo();
    assert!(juego.registrar(1).is_ok());
    assert!(juego.registrar(2).is_ok());
    let nonce_1: u128 = 719836158792659817324695;
    assert!(juego.commit(1, compromiso(Jugada::Papel, nonce_1)).is_ok());
    assert!(juego.commit(2, compromiso(Jugada::Piedra, 99)).is_ok());

    // A wrong nonce fails and leaves the revealed move empty and the stage
    // unchanged.
    assert_eq!(
        juego.revelar(1, Jugada::Papel, nonce_1 + 1).unwrap_err(),
        Error::HashIncorrecto
    );
    assert_eq!(juego.etapa(), Etapa::Reveal(CantidadDeJugadores::Cero));
    assert_eq!(juego.jugadores().primero().unwrap().jugada, None);
    // A wrong move fails the same way.
    assert_eq!(
        juego.revelar(1, Jugada::Piedra, nonce_1).unwrap_err(),
        Error::HashIncorrecto
    );
    // The right pair still succeeds afterwards.
    assert!(juego.revelar(1, Jugada::Papel, nonce_1).is_ok());
}

#[test]
fn empate_con_tijeras() {
    let mut juego = Juego::nuevo();
    assert!(juego.registrar(1).is_ok());
    assert!(juego.registrar(2).is_ok());
    assert!(juego.commit(1, compromiso(Jugada::Tijera, 100)).is_ok());
    assert!(juego.commit(2, compromiso(Jugada::Tijera, 200)).is_ok());
    assert!(juego.revelar(1, Jugada::Tijera, 100).is_ok());
    assert!(juego.revelar(2, Jugada::Tijera, 200).is_ok());

    assert!(matches!(juego.finalizar_juego().unwrap(), Event::Fin { ganador: None }));
    // Finalizing again re-derives the same outcome.
    assert!(matches!(juego.finalizar_juego().unwrap(), Event::Fin { ganador: None }));
    assert_eq!(juego.etapa(), Etapa::Fin);
}
