use surveillance_ftp::config::{message_erreur_chargement, AppConfig};
use surveillance_ftp::texte::{
    analyser_entier, decouper, ecrire_decimal, egal_sans_casse_ascii, memes_textes, retirer_bords,
    retirer_fin, rogner,
};

#[test]
fn rognage_des_blancs_unicode() {
    assert_eq!(rogner("  N7:0\t\n"), "N7:0");
    assert_eq!(rogner("\u{3000}x y\u{A0}"), "x y");
    assert_eq!(rogner("   "), "");
    assert_eq!(rogner(""), "");
    assert_eq!(rogner("a"), "a");
}

#[test]
fn decoupage_comme_split() {
    assert_eq!(decouper("a,,b", ','), vec!["a", "", "b"]);
    assert_eq!(decouper("", ','), vec![""]);
    assert_eq!(decouper("abc", ','), vec!["abc"]);
    assert_eq!(decouper("a,", ','), vec!["a", ""]);
    let attendu: Vec<String> = "x:y:z".split(':').map(|s| s.to_string()).collect();
    assert_eq!(decouper("x:y:z", ':'), attendu);
}

#[test]
fn entiers_decimaux_comme_parse() {
    assert_eq!(analyser_entier("255", 255), Some(255));
    assert_eq!(analyser_entier("256", 255), None);
    assert_eq!(analyser_entier("+7", 255), Some(7));
    assert_eq!(analyser_entier("+", 255), None);
    assert_eq!(analyser_entier("-1", 255), None);
    assert_eq!(analyser_entier("", 255), None);
    assert_eq!(analyser_entier("007", 255), Some(7));
    assert_eq!(analyser_entier("1 2", 65535), None);
    assert_eq!(analyser_entier("18446744073709551615", u64::MAX), Some(u64::MAX));
    assert_eq!(analyser_entier("18446744073709551616", u64::MAX), None);
    for s in ["0", "65535", "65536", "+12", "1a", "٣"] {
        assert_eq!(analyser_entier(s, 65535), s.parse::<u16>().ok().map(|v| v as u64), "{}", s);
    }
}

#[test]
fn ecriture_decimale_relue() {
    for n in [0u64, 7, 10, 21, 2121, 44818, 65535, u64::MAX] {
        let e = ecrire_decimal(n);
        assert_eq!(e, n.to_string());
        assert_eq!(analyser_entier(&e, u64::MAX), Some(n));
    }
}

#[test]
fn comparaisons_de_textes() {
    assert!(egal_sans_casse_ascii("TrUe", "true"));
    assert!(!egal_sans_casse_ascii("truee", "true"));
    assert!(!egal_sans_casse_ascii("trúe", "true"));
    assert!(memes_textes("abc", "abc"));
    assert!(!memes_textes("abc", "abd"));
    assert!(!memes_textes("ab", "abc"));
}

#[test]
fn retrait_de_caracteres_en_bord() {
    assert_eq!(retirer_fin("http://x//", '/'), "http://x");
    assert_eq!(retirer_fin("///", '/'), "");
    assert_eq!(retirer_bords("//a/b/", '/'), "a/b");
    assert_eq!(retirer_bords("a", '/'), "a");
}

fn charger(texte: &str) -> AppConfig {
    let ini = ini::Ini::load_from_str(texte).unwrap();
    AppConfig::depuis_ini(&ini)
}

#[test]
fn configuration_par_defaut() {
    let c = charger("");
    assert_eq!(c.surveillance.repertoire_surveille, "images_input");
    assert_eq!(c.surveillance.extensions, vec![".jpg", ".jpeg", ".png"]);
    assert_eq!(c.surveillance.dossier_envoye, None);
    assert!(c.serveur_ftp.actif);
    assert_eq!(c.serveur_ftp.port_ecoute, 2121);
    assert_eq!(c.serveur_ftp.adresse_ecoute, "0.0.0.0");
    assert_eq!(c.serveur_ftp.utilisateur, None);
    assert_eq!(c.serveur_ftp.mot_de_passe, None);
    assert!(c.serveur_ftp.anonyme);
    assert_eq!(c.serveur_ftp.masquerade_address, None);
    assert_eq!(c.serveur_ftp.port_passif_min, 60000);
    assert_eq!(c.serveur_ftp.port_passif_max, 60100);
    assert_eq!(c.ftp_client.host, "192.168.1.100");
    assert_eq!(c.ftp_client.port, 21);
    assert_eq!(c.ftp_client.utilisateur, "ftpuser");
    assert_eq!(c.ftp_client.dossier_distant, "/images");
    assert_eq!(c.ftp_client.max_images, 20000);
    assert!(c.ftp_client.mode_passif);
    assert!(!c.piia.actif);
    assert_eq!(c.piia.url, "http://127.0.0.1:3001");
    assert_eq!(c.piia.timeout_ms, 1000);
    assert!(!c.automate.actif);
    assert_eq!(c.automate.driver_type, "none");
    assert_eq!(c.automate.address, None);
    assert_eq!(c.automate.result_tag, None);
    assert!(c.interface.plein_ecran);
    assert_eq!(c.interface.touche_quitter, "Escape");
    assert_eq!(c.interface.timeout_fichier_secs, 15);
    assert_eq!(c.interface.retries_upload, 3);
}

#[test]
fn configuration_lue() {
    let c = charger(
        "[surveillance]\n\
         repertoire_surveille =  /srv/images  \n\
         extensions = .JPG, ,.Png,\n\
         dossier_envoye = envoyes\n\
         [serveur_ftp]\n\
         actif = FALSE\n\
         port_ecoute = 70000\n\
         utilisateur = camera\n\
         anonyme = TRUE\n\
         port_passif_min = +61000\n\
         [ftp]\n\
         host = ftp.example\n\
         port = 2100\n\
         max_images = 5\n\
         mode_passif = non\n\
         [piia]\n\
         actif = true\n\
         timeout_ms = 2500\n\
         [automate]\n\
         actif = true\n\
         driver_type = Allen_Bradley\n\
         result_tag = N9:3\n\
         [interface]\n\
         touche_quitter = F5\n\
         retries_upload = 4294967297\n",
    );
    assert_eq!(c.surveillance.repertoire_surveille, "/srv/images");
    assert_eq!(c.surveillance.extensions, vec![".jpg", ".png"]);
    assert_eq!(c.surveillance.dossier_envoye.as_deref(), Some("envoyes"));
    assert!(!c.serveur_ftp.actif);
    // Hors des bornes d'un u16 : valeur par défaut.
    assert_eq!(c.serveur_ftp.port_ecoute, 2121);
    assert_eq!(c.serveur_ftp.utilisateur.as_deref(), Some("camera"));
    assert!(c.serveur_ftp.anonyme);
    assert_eq!(c.serveur_ftp.port_passif_min, 61000);
    assert_eq!(c.ftp_client.host, "ftp.example");
    assert_eq!(c.ftp_client.port, 2100);
    assert_eq!(c.ftp_client.max_images, 5);
    assert!(!c.ftp_client.mode_passif);
    assert!(c.piia.actif);
    assert_eq!(c.piia.timeout_ms, 2500);
    assert!(c.automate.actif);
    assert_eq!(c.automate.driver_type, "Allen_Bradley");
    assert_eq!(c.automate.result_tag.as_deref(), Some("N9:3"));
    assert_eq!(c.automate.heartbeat_tag, None);
    assert_eq!(c.interface.touche_quitter, "F5");
    // Comme `as u32` : troncature à 32 bits.
    assert_eq!(c.interface.retries_upload, 1);
}

#[test]
fn blancs_identiques_a_trim() {
    for code in 0u32..0x3100 {
        if let Some(c) = char::from_u32(code) {
            let s = format!("{c}{c}x{c}");
            assert_eq!(rogner(&s), s.trim(), "U+{:04X}", code);
        }
    }
}

#[test]
fn entiers_identiques_a_parse() {
    let exemples = [
        "0", "1", "+1", "++1", "-0", "00", "255", "256", "65535", "65536", " 1", "1 ", "1_0", "",
        "+", "9999999999999999999999", "4294967295", "4294967296",
    ];
    for s in exemples {
        assert_eq!(analyser_entier(s, 255), s.parse::<u8>().ok().map(u64::from), "{}", s);
        assert_eq!(analyser_entier(s, 65535), s.parse::<u16>().ok().map(u64::from), "{}", s);
        assert_eq!(analyser_entier(s, u32::MAX as u64), s.parse::<u32>().ok().map(u64::from), "{}", s);
    }
}

#[test]
fn document_avec_marque_d_ordre() {
    let mut octets = vec![0xEFu8, 0xBB, 0xBF];
    octets.extend_from_slice(b"[ftp]\nport=2100\n");
    let c = AppConfig::depuis_document("config.ini", &octets).unwrap();
    assert_eq!(c.ftp_client.port, 2100);
    assert_eq!(c.ftp_client.host, "192.168.1.100");
    let sans = AppConfig::depuis_document("config.ini", b"[ftp]\nport=2100\n").unwrap();
    assert_eq!(sans.ftp_client.port, 2100);
}

#[test]
fn document_illisible() {
    let r = AppConfig::depuis_document("x.ini", &[b'[', 0xFF, 0xFE, b']']);
    match r {
        Err(e) => assert!(e.starts_with("Impossible de charger x.ini: ")),
        Ok(_) => panic!("document accepte"),
    }
}

#[test]
fn message_de_chargement() {
    assert_eq!(
        message_erreur_chargement("a/config.ini", "introuvable"),
        "Impossible de charger a/config.ini: introuvable"
    );
}
