use surveillance_ftp::config::AutomateConfig;
use surveillance_ftp::plc::allen_bradley::{prochain_heartbeat, AllenBradleyDriver};
use surveillance_ftp::plc::pccc::{
    build_eip_header, build_send_rr_data, build_write_int_message, check_pccc_response,
    connect_address, read_eip_header, read_session_handle, register_session_packet, ErreurAdresse,
    ErreurPccc, PcccAddress, SessionPccc, EIP_HEADER_SIZE,
};
use surveillance_ftp::plc::{
    choisir_driver, code_resultat, creer_driver, driver_pour_type, ligne_resultat, texte_resultat, DriverPlc,
    ErreurDriver, ResultatPiece,
};

fn adresse(file_type: u8, file_number: u8, element_number: u8, sub_element: u8) -> PcccAddress {
    PcccAddress { file_type, file_number, element_number, sub_element }
}

#[test]
fn adresses_pccc_valides() {
    assert_eq!(PcccAddress::parse("N7:0"), Ok(adresse(0x89, 7, 0, 0)));
    assert_eq!(PcccAddress::parse("n150:10"), Ok(adresse(0x89, 150, 10, 0)));
    assert_eq!(PcccAddress::parse("B3:0/5"), Ok(adresse(0x85, 3, 0, 5)));
    assert_eq!(PcccAddress::parse("  F8:0 \t"), Ok(adresse(0x8A, 8, 0, 0)));
    assert_eq!(PcccAddress::parse("N7:1/2/3"), Ok(adresse(0x89, 7, 1, 2)));
    assert_eq!(PcccAddress::parse("N+7:+0"), Ok(adresse(0x89, 7, 0, 0)));
}

#[test]
fn adresses_pccc_refusees() {
    assert_eq!(PcccAddress::parse("   "), Err(ErreurAdresse::Vide));
    assert_eq!(PcccAddress::parse("X7:0"), Err(ErreurAdresse::TypeNonSupporte('X')));
    assert_eq!(PcccAddress::parse("x7:0"), Err(ErreurAdresse::TypeNonSupporte('X')));
    assert_eq!(PcccAddress::parse("é7:0"), Err(ErreurAdresse::TypeNonSupporte('é')));
    assert_eq!(PcccAddress::parse(" N7 "), Err(ErreurAdresse::FormatInvalide("N7".to_string())));
    assert_eq!(
        PcccAddress::parse("N7:0:1"),
        Err(ErreurAdresse::FormatInvalide("N7:0:1".to_string()))
    );
    assert_eq!(
        PcccAddress::parse("N256:0"),
        Err(ErreurAdresse::NumeroFichierInvalide("256".to_string()))
    );
    assert_eq!(
        PcccAddress::parse("N7:a"),
        Err(ErreurAdresse::NumeroElementInvalide("a".to_string()))
    );
    assert_eq!(
        PcccAddress::parse("B3:0/x"),
        Err(ErreurAdresse::SousElementInvalide("x".to_string()))
    );
    assert_eq!(
        PcccAddress::parse("N7:/1"),
        Err(ErreurAdresse::NumeroElementInvalide("".to_string()))
    );
}

#[test]
fn entete_eip() {
    let t = build_eip_header(0x006F, 0x1234_5678, &[0xAA, 0xBB]);
    assert_eq!(
        t,
        vec![
            0x6F, 0x00, 0x02, 0x00, 0x78, 0x56, 0x34, 0x12, 0, 0, 0, 0, b'_', b's', b'u', b'r',
            b'v', b'_', b'_', b'_', 0, 0, 0, 0, 0xAA, 0xBB
        ]
    );
    assert_eq!(t.len(), EIP_HEADER_SIZE + 2);
}

#[test]
fn enregistrement_de_session() {
    let t = register_session_packet();
    assert_eq!(&t[0..4], &[0x65, 0x00, 0x04, 0x00]);
    assert_eq!(&t[24..], &[0x01, 0x00, 0x00, 0x00]);
    assert_eq!(&t[4..8], &[0, 0, 0, 0]);
}

#[test]
fn ecriture_int_complete() {
    let mut s = SessionPccc::new(0x0102_0304);
    let a = adresse(0x89, 7, 0, 0);
    let t = s.write_int_packet(&a, -1);
    let message = build_write_int_message(1, &a, -1);
    assert_eq!(
        message,
        vec![
            0x4B, 0x02, 0x20, 0x67, 0x24, 0x01, 0x07, 0x09, 0x10, 0x01, 0x02, 0x03, 0x04, 0x0F, 0x00,
            0x01, 0x00, 0xAA, 0x02, 7, 0x89, 0, 0, 0xFF, 0xFF
        ]
    );
    let rr = build_send_rr_data(&message);
    assert_eq!(&rr[0..16], &[0, 0, 0, 0, 10, 0, 2, 0, 0, 0, 0, 0, 0xB2, 0, 25, 0]);
    assert_eq!(t, build_eip_header(0x006F, 0x0102_0304, &rr));
    assert_eq!(s.transaction, 2);
    let t2 = s.write_int_packet(&a, 1);
    assert_eq!(&t2[24 + 16 + 15..24 + 16 + 17], &[0x02, 0x00]);
    assert_eq!(s.transaction, 3);
    assert_eq!(s.session_handle, 0x0102_0304);
}

#[test]
fn transaction_reboucle() {
    let mut s = SessionPccc { session_handle: 9, transaction: 65535 };
    let a = adresse(0x89, 7, 1, 0);
    let t = s.write_int_packet(&a, 0);
    assert_eq!(&t[24 + 16 + 15..24 + 16 + 17], &[0xFF, 0xFF]);
    assert_eq!(s.transaction, 0);
}

#[test]
fn fermeture_de_session() {
    let s = SessionPccc::new(0xDEAD_BEEF);
    let t = s.close_packet();
    assert_eq!(t, build_eip_header(0x0066, 0xDEAD_BEEF, &[]));
    assert_eq!(t.len(), EIP_HEADER_SIZE);
}

#[test]
fn session_relue_dans_la_reponse() {
    let reponse = build_eip_header(0x0065, 0xCAFE_0001, &[1, 0, 0, 0]);
    assert_eq!(read_session_handle(&reponse), Ok(0xCAFE_0001));
    let nulle = build_eip_header(0x0065, 0, &[]);
    assert_eq!(read_session_handle(&nulle), Err(ErreurPccc::SessionRefusee));
    assert_eq!(read_session_handle(&nulle[..23]), Err(ErreurPccc::ReponseSessionTropCourte));
}

#[test]
fn entete_de_reponse() {
    let donnees = vec![0u8; 300];
    let t = build_eip_header(0x006F, 7, &donnees);
    assert_eq!(read_eip_header(&t[..EIP_HEADER_SIZE]), Ok(300));
    let mut h = t[..EIP_HEADER_SIZE].to_vec();
    h[8] = 0x01;
    h[11] = 0x80;
    assert_eq!(read_eip_header(&h), Err(ErreurPccc::StatutEip(0x8000_0001)));
}

fn reponse_ecriture(longueur: usize) -> Vec<u8> {
    let mut r = vec![0u8; longueur];
    if longueur > 40 {
        r[40] = 0xCB;
    }
    r
}

#[test]
fn reponses_a_une_ecriture() {
    assert_eq!(check_pccc_response(&[0u8; 41]), Err(ErreurPccc::ReponseTropCourte(41)));
    let mut r = reponse_ecriture(60);
    assert_eq!(check_pccc_response(&r), Ok(()));
    r[40] = 0x4B;
    assert_eq!(check_pccc_response(&r), Err(ErreurPccc::ReponseCipInvalide(0x4B)));
    r[40] = 0xCB;
    r[42] = 0x05;
    assert_eq!(check_pccc_response(&r), Err(ErreurPccc::StatutCip(0x05)));
    r[42] = 0;
    r[52] = 0x10;
    assert_eq!(check_pccc_response(&r), Err(ErreurPccc::StatutPccc(0x10)));
    let mut courte = reponse_ecriture(52);
    courte[42] = 0;
    assert_eq!(check_pccc_response(&courte), Ok(()));
    let mut sans_bit = vec![0u8; 42];
    sans_bit[40] = 0x01;
    assert_eq!(check_pccc_response(&sans_bit), Err(ErreurPccc::ReponseCipInvalide(0x01)));
}

#[test]
fn adresse_de_connexion_automate() {
    assert_eq!(connect_address("192.168.1.10"), "192.168.1.10:44818");
    assert_eq!(connect_address("10.0.0.2:2222"), "10.0.0.2:2222");
}

#[test]
fn valeurs_ecrites_pour_un_resultat() {
    assert_eq!(code_resultat(ResultatPiece::PieceOk), 1);
    assert_eq!(code_resultat(ResultatPiece::Nok), 2);
    assert_eq!(code_resultat(ResultatPiece::Timeout), 2);
    assert_eq!(texte_resultat(ResultatPiece::PieceOk), "OK");
    assert_eq!(texte_resultat(ResultatPiece::Nok), "NOK");
    assert_eq!(texte_resultat(ResultatPiece::Timeout), "TIMEOUT");
    assert_eq!(ligne_resultat(ResultatPiece::Timeout), "TIMEOUT\n");
    assert_eq!(ligne_resultat(ResultatPiece::PieceOk), "OK\n");
}

#[test]
fn heartbeat_de_1_a_32767() {
    assert_eq!(prochain_heartbeat(0), 1);
    assert_eq!(prochain_heartbeat(5), 6);
    assert_eq!(prochain_heartbeat(32766), 32767);
    assert_eq!(prochain_heartbeat(32767), 1);
}

#[test]
fn driver_allen_bradley() {
    let mut d = AllenBradleyDriver::new("10.0.0.5", "N7:0", "N7:1").unwrap();
    assert_eq!(d.result_address, adresse(0x89, 7, 0, 0));
    assert_eq!(d.heartbeat_address, adresse(0x89, 7, 1, 0));
    assert!(!d.connected);
    assert!(d.doit_reconnecter());
    assert_eq!(d.tick_heartbeat(), None);
    d.connexion_etablie();
    assert!(!d.doit_reconnecter());
    assert_eq!(d.tick_heartbeat(), Some(1));
    assert_eq!(d.tick_heartbeat(), Some(2));
    d.heartbeat = 32767;
    assert_eq!(d.tick_heartbeat(), Some(1));
    assert_eq!(d.ecriture_resultat(ResultatPiece::Timeout), (adresse(0x89, 7, 0, 0), 2));
    d.connexion_perdue();
    assert_eq!(d.tick_heartbeat(), None);
    d.connexion_etablie();
    let ecritures = d.ecritures_deconnexion();
    assert_eq!(ecritures, vec![(adresse(0x89, 7, 1, 0), 0), (adresse(0x89, 7, 0, 0), 0)]);
    assert!(!d.connected);
    assert!(matches!(
        AllenBradleyDriver::new("a", "Z1:0", "N7:1"),
        Err(ErreurAdresse::TypeNonSupporte('Z'))
    ));
    assert!(matches!(
        AllenBradleyDriver::new("a", "N7:0", "N7"),
        Err(ErreurAdresse::FormatInvalide(_))
    ));
}

fn config(actif: bool, driver_type: &str) -> AutomateConfig {
    AutomateConfig {
        actif,
        driver_type: driver_type.to_string(),
        address: None,
        result_tag: None,
        heartbeat_tag: None,
        fichier_resultat: None,
        tcp_adresse: None,
    }
}

#[test]
fn choix_du_driver() {
    assert!(matches!(choisir_driver(&config(false, "allen_bradley")), Ok(None)));
    match choisir_driver(&config(true, "Allen_Bradley")) {
        Ok(Some(DriverPlc::AllenBradley(d))) => {
            assert_eq!(d.address, "192.168.1.10");
            assert_eq!(d.result_tag_str, "N7:0");
            assert_eq!(d.heartbeat_tag_str, "N7:1");
        }
        _ => panic!("driver Allen-Bradley attendu"),
    }
    assert!(matches!(choisir_driver(&config(true, "AB")), Ok(Some(DriverPlc::AllenBradley(_)))));
    match choisir_driver(&config(true, "FILE")) {
        Ok(Some(DriverPlc::Fichier { chemin })) => {
            assert_eq!(chemin, "/tmp/surveillance_resultat.txt")
        }
        _ => panic!("driver fichier attendu"),
    }
    let mut c = config(true, "tcp");
    c.tcp_adresse = Some("10.1.1.1:7000".to_string());
    match choisir_driver(&c) {
        Ok(Some(DriverPlc::Tcp { adresse })) => assert_eq!(adresse, "10.1.1.1:7000"),
        _ => panic!("driver TCP attendu"),
    }
    assert!(matches!(choisir_driver(&config(true, "NONE")), Ok(None)));
    assert!(matches!(choisir_driver(&config(true, "")), Ok(None)));
    assert_eq!(
        choisir_driver(&config(true, "Modbus")).err(),
        Some(ErreurDriver::TypeInconnu("modbus".to_string()))
    );
    let mut c = config(true, "ab");
    c.heartbeat_tag = Some("Q1:0".to_string());
    assert_eq!(
        choisir_driver(&c).err(),
        Some(ErreurDriver::Adresse(ErreurAdresse::TypeNonSupporte('Q')))
    );
    assert!(matches!(
        driver_pour_type(&config(true, "ignoré"), "fichier"),
        Ok(Some(DriverPlc::Fichier { .. }))
    ));
}

#[test]
fn sequence_de_heartbeat_depuis_la_connexion() {
    let mut d = AllenBradleyDriver::new("10.0.0.5", "N7:0", "N7:1").unwrap();
    d.connexion_etablie();
    for k in 1..=32767i16 {
        assert_eq!(d.tick_heartbeat(), Some(k));
    }
    assert_eq!(d.tick_heartbeat(), Some(1));
    assert_eq!(d.tick_heartbeat(), Some(2));
}

#[test]
fn creation_du_driver_comme_option() {
    assert!(creer_driver(&config(false, "tcp")).is_none());
    assert!(matches!(creer_driver(&config(true, "Ab")), Some(DriverPlc::AllenBradley(_))));
    assert!(matches!(creer_driver(&config(true, "fichier")), Some(DriverPlc::Fichier { .. })));
    assert!(matches!(creer_driver(&config(true, "TCP")), Some(DriverPlc::Tcp { .. })));
    assert!(creer_driver(&config(true, "none")).is_none());
    assert!(creer_driver(&config(true, "")).is_none());
    assert!(creer_driver(&config(true, "modbus")).is_none());
    let mut c = config(true, "allenbradley");
    c.result_tag = Some("N7".to_string());
    assert!(creer_driver(&c).is_none());
}
