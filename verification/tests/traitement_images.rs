use surveillance_ftp::client_ftp::{
    adresse_ftp, chemin_distant, chemins_dossier, ActionApresEnvoi, PurgeFifo, SuiviDistant,
};
use surveillance_ftp::compteur::{CompteurData, CompteurPersistant};
use surveillance_ftp::config::ServeurFtpConfig;
use surveillance_ftp::deroulement::{Action, Etape, Evenement, TraitementImage};
use surveillance_ftp::piia::{delai_connexion_ms, url_analyse, ResultatAnalyse};
use surveillance_ftp::plc::ResultatPiece;
use surveillance_ftp::serveur_ftp::{
    plan_serveur_ftp, ErreurAuthentification, IdentifiantsAuthenticator, ModeAcces,
};
use surveillance_ftp::surveillant::{
    evenement_examine, extension_acceptee, AntiRebond, AttenteFichier, GenreEvenement,
};
use surveillance_ftp::traitement::{
    parser_touche, touche_configuree, Couleur, EtatAffichage, Statut, Touche,
};

const S: u64 = 1_000_000_000;

#[test]
fn compteur_persistant() {
    let mut c = CompteurPersistant::new(None);
    assert_eq!(c.total_envoye(), 0);
    assert_eq!(c.total_supprime(), 0);
    c.incrementer_envoye();
    c.incrementer_envoye();
    c.incrementer_supprime_par(5);
    assert_eq!(c.donnees(), CompteurData { total_envoye: 2, total_supprime: 5 });
    let recharge = CompteurPersistant::new(Some(c.donnees()));
    assert_eq!(recharge.donnees(), c.donnees());
    c.remettre_a_zero();
    assert_eq!(c.donnees(), CompteurData { total_envoye: 0, total_supprime: 0 });
    let repris = CompteurPersistant::new(Some(CompteurData { total_envoye: 7, total_supprime: 1 }));
    assert_eq!(repris.total_envoye(), 7);
    assert_eq!(repris.total_supprime(), 1);
}

#[test]
fn adresse_du_service_piia() {
    assert_eq!(url_analyse("http://127.0.0.1:3001"), "http://127.0.0.1:3001/api/external/analyse");
    assert_eq!(url_analyse("http://piia//"), "http://piia/api/external/analyse");
    assert_eq!(delai_connexion_ms(1000), 1000);
    assert_eq!(delai_connexion_ms(5000), 2000);
}

#[test]
fn resultat_depuis_reponse_piia() {
    let r = ResultatAnalyse::depuis_reponse(
        "defect".to_string(),
        false,
        "aGVsbG8=",
        42,
        "{}".to_string(),
    )
    .unwrap();
    assert_eq!(r.image_annotee, b"hello".to_vec());
    assert_eq!(r.global_status, "defect");
    assert!(!r.piece_ok);
    assert_eq!(r.processing_time_ms, 42);
    assert_eq!(r.details, "{}");
    assert!(ResultatAnalyse::depuis_reponse("ok".to_string(), true, "!!!", 1, String::new())
        .is_none());
    assert!(ResultatAnalyse::assembler("ok".to_string(), true, None, 1, String::new()).is_none());
}

#[test]
fn chemins_ftp() {
    assert_eq!(adresse_ftp("ftp.example", 21), "ftp.example:21");
    assert_eq!(chemin_distant("/images", "a.jpg"), "/images/a.jpg");
    assert_eq!(chemins_dossier("/images/2024/"), vec!["/images", "/images/2024"]);
    assert_eq!(chemins_dossier("a"), vec!["/a"]);
    assert_eq!(chemins_dossier("/"), vec!["/"]);
    assert_eq!(chemins_dossier("a//b"), vec!["/a", "/a/", "/a//b"]);
}

#[test]
fn nombre_de_fichiers_distants() {
    let mut s = SuiviDistant::new();
    assert!(s.besoin_fifo(10));
    s.apres_purge(3);
    assert!(!s.besoin_fifo(10));
    assert!(s.besoin_fifo(4));
    s.envoi_reussi();
    assert_eq!(s.nb_fichiers_distants, Some(4));
    s.envoi_echoue();
    assert_eq!(s.nb_fichiers_distants, None);
    s.envoi_reussi();
    assert_eq!(s.nb_fichiers_distants, None);
    s.apres_purge(1);
    s.reconnexion();
    assert_eq!(s.nb_fichiers_distants, None);
}

fn listing(noms: &[&str]) -> Vec<String> {
    noms.iter().map(|n| n.to_string()).collect()
}

#[test]
fn purge_fifo_des_plus_anciens() {
    let mut p = PurgeFifo::new(listing(&[".", "a", "..", "b", "c", "d"]));
    assert_eq!(p.nb_restants(), 4);
    let mut supprimes = Vec::new();
    while let Some(nom) = p.prochaine_suppression(3) {
        supprimes.push(nom);
        p.suppression_reussie(3);
    }
    assert_eq!(supprimes, vec!["a", "b"]);
    assert_eq!(p.nb_restants(), 2);
    assert_eq!(p.nb_supprimes(), 2);

    let mut p = PurgeFifo::new(listing(&["x", "y"]));
    assert_eq!(p.prochaine_suppression(3), None);
    let mut n = 0;
    while p.prochaine_suppression(0).is_some() {
        p.suppression_reussie(0);
        n += 1;
    }
    assert_eq!(n, 2);
    assert_eq!(p.nb_restants(), 0);
    assert_eq!(PurgeFifo::sans_listing().prochaine_suppression(0), None);
}

#[test]
fn authentification_par_identifiants() {
    let a = IdentifiantsAuthenticator {
        utilisateur: "camera".to_string(),
        mot_de_passe: "s3cret".to_string(),
    };
    assert_eq!(a.authenticate("camera", Some("s3cret")), Ok(()));
    assert_eq!(
        a.authenticate("camera", Some("autre")),
        Err(ErreurAuthentification::MauvaisMotDePasse)
    );
    assert_eq!(a.authenticate("camera", None), Err(ErreurAuthentification::MauvaisMotDePasse));
    assert_eq!(
        a.authenticate("root", Some("s3cret")),
        Err(ErreurAuthentification::MauvaisUtilisateur)
    );
}

fn config_serveur() -> ServeurFtpConfig {
    ServeurFtpConfig {
        actif: true,
        port_ecoute: 2121,
        adresse_ecoute: "0.0.0.0".to_string(),
        utilisateur: Some("camera".to_string()),
        mot_de_passe: Some("pw".to_string()),
        anonyme: false,
        masquerade_address: Some("10.0.0.9".to_string()),
        port_passif_min: 60000,
        port_passif_max: 60100,
    }
}

#[test]
fn plan_du_serveur_integre() {
    let p = plan_serveur_ftp(&config_serveur(), "/srv/images").unwrap();
    assert_eq!(p.adresse, "0.0.0.0:2121");
    assert_eq!(p.repertoire, "/srv/images");
    assert_eq!((p.port_passif_min, p.port_passif_max), (60000, 60100));
    assert_eq!(p.masquerade_address.as_deref(), Some("10.0.0.9"));
    match p.acces {
        ModeAcces::Identifiants(a) => {
            assert_eq!(a.utilisateur, "camera");
            assert_eq!(a.mot_de_passe, "pw");
        }
        _ => panic!("accès par identifiants attendu"),
    }
    let mut c = config_serveur();
    c.mot_de_passe = None;
    assert!(matches!(
        plan_serveur_ftp(&c, "d").unwrap().acces,
        ModeAcces::AnonymeSansIdentifiants
    ));
    c.anonyme = true;
    assert!(matches!(plan_serveur_ftp(&c, "d").unwrap().acces, ModeAcces::Anonyme));
    c.actif = false;
    assert!(plan_serveur_ftp(&c, "d").is_none());
}

#[test]
fn extensions_surveillees() {
    let ext = vec![".jpg".to_string(), ".png".to_string()];
    assert!(extension_acceptee(Some("JPG"), &ext));
    assert!(extension_acceptee(Some("png"), &ext));
    assert!(!extension_acceptee(Some("gif"), &ext));
    assert!(!extension_acceptee(None, &ext));
    assert!(extension_acceptee(None, &vec![String::new()]));
}

#[test]
fn anti_rebond_des_notifications() {
    let mut a = AntiRebond::new();
    assert!(a.doit_signaler("/in/a.jpg", 10 * S));
    assert!(!a.doit_signaler("/in/a.jpg", 11 * S));
    assert!(a.doit_signaler("/in/b.jpg", 11 * S));
    assert!(a.doit_signaler("/in/a.jpg", 12 * S));
    assert!(!a.doit_signaler("/in/a.jpg", 12 * S + 1));
    // Un instant antérieur au dernier signalement compte comme nul.
    assert!(!a.doit_signaler("/in/a.jpg", 5 * S));
}

#[test]
fn anti_rebond_purge_des_anciennes_entrees() {
    let mut a = AntiRebond::new();
    for i in 0..500u64 {
        assert!(a.doit_signaler(&format!("/in/{}.jpg", i), 0));
    }
    // 501 entrées : celles de plus de 60 s sont oubliées.
    assert!(a.doit_signaler("/in/neuf.jpg", 100 * S));
    assert!(a.doit_signaler("/in/0.jpg", 100 * S + 1));
    assert!(!a.doit_signaler("/in/neuf.jpg", 101 * S));
}

#[test]
fn attente_de_fin_d_ecriture() {
    let mut a = AttenteFichier::new();
    assert!(!a.observer(Some(100)));
    assert!(!a.observer(Some(100)));
    assert!(a.observer(Some(100)));

    let mut a = AttenteFichier::new();
    assert!(!a.observer(Some(10)));
    assert!(!a.observer(Some(20)));
    assert!(!a.observer(Some(20)));
    assert!(!a.observer(None));
    assert!(!a.observer(Some(20)));
    assert!(a.observer(Some(20)));

    let mut a = AttenteFichier::new();
    assert!(!a.observer(Some(0)));
    assert!(!a.observer(Some(0)));
    assert!(!a.observer(Some(0)));
    assert!(AttenteFichier::verdict_final(Some(1)));
    assert!(!AttenteFichier::verdict_final(Some(0)));
    assert!(!AttenteFichier::verdict_final(None));
}

#[test]
fn touche_de_sortie() {
    assert_eq!(parser_touche("Escape"), Some(Touche::Escape));
    assert_eq!(parser_touche("ECHAP"), Some(Touche::Escape));
    assert_eq!(parser_touche("F5"), Some(Touche::F5));
    assert_eq!(parser_touche("f12"), Some(Touche::F12));
    assert_eq!(parser_touche("Q"), Some(Touche::Q));
    assert_eq!(parser_touche("F13"), None);
}

fn analyse(piece_ok: bool) -> ResultatAnalyse {
    ResultatAnalyse {
        global_status: if piece_ok { "ok" } else { "defect" }.to_string(),
        piece_ok,
        image_annotee: vec![1, 2, 3],
        processing_time_ms: 87,
        details: "{}".to_string(),
    }
}

#[test]
fn deroulement_avec_piia() {
    let mut e = EtatAffichage::new();
    assert!(matches!(e.statut, Statut::EnAttente));
    assert_eq!(e.statut.couleur().rgb(), (0, 204, 0));
    e.debut_analyse("a.jpg".to_string());
    assert_eq!(e.statut.couleur(), Couleur::Orange);
    let r = e.fin_analyse("a.jpg".to_string(), Some(&analyse(true)));
    assert_eq!(r, ResultatPiece::PieceOk);
    assert!(matches!(e.statut, Statut::PieceOk { processing_time_ms: 87, .. }));
    e.fin_envoi("a.jpg".to_string(), true, 3);
    assert!(matches!(e.statut, Statut::PieceOk { .. }));
    assert!(e.resultat_piia.as_ref().unwrap().piece_ok);

    e.debut_analyse("b.jpg".to_string());
    assert!(e.resultat_piia.is_none());
    let r = e.fin_analyse("b.jpg".to_string(), Some(&analyse(false)));
    assert_eq!(r, ResultatPiece::Nok);
    match &e.statut {
        Statut::PieceNok { nom, global_status, .. } => {
            assert_eq!(nom, "b.jpg");
            assert_eq!(global_status, "defect");
        }
        _ => panic!("statut NOK attendu"),
    }
    assert_eq!(e.statut.couleur().rgb(), (255, 68, 68));
    e.fin_envoi("b.jpg".to_string(), false, 3);
    assert!(matches!(e.statut, Statut::EchecEnvoi { retries: 3, .. }));

    e.debut_analyse("c.jpg".to_string());
    let r = e.fin_analyse("c.jpg".to_string(), None);
    assert_eq!(r, ResultatPiece::Timeout);
    assert!(matches!(e.statut, Statut::PiiaIndisponible { .. }));
    e.fin_envoi("c.jpg".to_string(), true, 3);
    assert!(matches!(e.statut, Statut::Envoye { .. }));
}

#[test]
fn deroulement_sans_piia() {
    let mut e = EtatAffichage::new();
    e.sans_analyse("d.jpg".to_string());
    assert!(matches!(e.statut, Statut::EnvoiEnCours { .. }));
    e.fin_envoi("d.jpg".to_string(), true, 0);
    assert!(matches!(e.statut, Statut::Envoye { .. }));
    e.fichier_incomplet("e.jpg".to_string());
    assert_eq!(e.statut.couleur(), Couleur::Rouge);
}

#[test]
fn issue_d_un_envoi() {
    let mut s = SuiviDistant::new();
    s.apres_purge(7);
    assert_eq!(s.issue_envoi(true), ActionApresEnvoi::CompterEnvoi);
    assert_eq!(s.nb_fichiers_distants, Some(8));
    assert_eq!(s.issue_envoi(false), ActionApresEnvoi::AbandonnerConnexion);
    assert_eq!(s.nb_fichiers_distants, None);
    assert_eq!(s.issue_envoi(true), ActionApresEnvoi::CompterEnvoi);
    assert_eq!(s.nb_fichiers_distants, None);
}

#[test]
fn touche_configuree_par_defaut() {
    assert_eq!(touche_configuree("zz"), Touche::Escape);
    assert_eq!(touche_configuree(""), Touche::Escape);
    assert_eq!(touche_configuree("F2"), Touche::F2);
    assert_eq!(touche_configuree("q"), Touche::Q);
}

#[test]
fn textes_des_statuts() {
    let nom = || "a.jpg".to_string();
    assert_eq!(Statut::EnAttente.texte(), "En attente de nouvelles images...");
    assert_eq!(Statut::FichierIncomplet { nom: "e.jpg".to_string() }.texte(), "Fichier incomplet : e.jpg");
    assert_eq!(Statut::AnalyseEnCours { nom: nom() }.texte(), "Analyse PIIA en cours : a.jpg");
    assert_eq!(Statut::PieceOk { nom: nom(), processing_time_ms: 87 }.texte(), "OK - a.jpg (87ms)");
    assert_eq!(
        Statut::PieceNok { nom: nom(), global_status: "NOK".to_string(), processing_time_ms: 0 }.texte(),
        "NOK [NOK] - a.jpg (0ms)"
    );
    assert_eq!(
        Statut::PiiaIndisponible { nom: nom() }.texte(),
        "PIIA indisponible - a.jpg (analyse ignoree)"
    );
    assert_eq!(Statut::EnvoiEnCours { nom: nom() }.texte(), "Envoi en cours : a.jpg");
    assert_eq!(Statut::Envoye { nom: nom() }.texte(), "Envoyé : a.jpg");
    assert_eq!(
        Statut::EchecEnvoi { nom: "b.jpg".to_string(), retries: 3 }.texte(),
        "Échec envoi FTP (3 retries) : b.jpg"
    );
}

#[test]
fn deroulement_fichier_incomplet() {
    let mut t = TraitementImage::new(true, true);
    assert_eq!(t.avancer(Evenement::FinEcriture { complet: false }), Action::SupprimerIncomplet);
    assert_eq!(t.etape, Etape::Termine);
    assert_eq!(t.avancer(Evenement::Fait), Action::Aucune);
    assert_eq!(t.avancer(Evenement::Analysee(ResultatPiece::PieceOk)), Action::Aucune);
}

#[test]
fn deroulement_complet_avec_analyse_et_automate() {
    let mut t = TraitementImage::new(true, true);
    assert_eq!(t.avancer(Evenement::FinEcriture { complet: true }), Action::LireFichier);
    assert_eq!(t.avancer(Evenement::Lu { reussi: true }), Action::AnalyserPiia);
    assert_eq!(
        t.avancer(Evenement::Analysee(ResultatPiece::Timeout)),
        Action::EcrireAutomate(ResultatPiece::Timeout)
    );
    assert_eq!(t.avancer(Evenement::Fait), Action::SupprimerSource);
    assert_eq!(t.avancer(Evenement::Fait), Action::EnvoyerFtp);
    assert_eq!(t.avancer(Evenement::Fait), Action::Terminer);
    assert_eq!(t.etape, Etape::Termine);
}

#[test]
fn deroulement_sans_analyse_ni_automate() {
    let mut t = TraitementImage::new(false, false);
    assert_eq!(t.avancer(Evenement::FinEcriture { complet: true }), Action::LireFichier);
    assert_eq!(t.avancer(Evenement::Lu { reussi: true }), Action::AfficherSansAnalyse);
    assert_eq!(t.avancer(Evenement::Fait), Action::SupprimerSource);
    assert_eq!(t.avancer(Evenement::Fait), Action::EnvoyerFtp);
    let mut u = TraitementImage::new(true, false);
    u.avancer(Evenement::FinEcriture { complet: true });
    u.avancer(Evenement::Lu { reussi: true });
    assert_eq!(u.avancer(Evenement::Analysee(ResultatPiece::Nok)), Action::SupprimerSource);
    let mut v = TraitementImage::new(true, true);
    v.avancer(Evenement::FinEcriture { complet: true });
    assert_eq!(v.avancer(Evenement::Lu { reussi: false }), Action::Abandonner);
    assert_eq!(v.etape, Etape::Termine);
}

#[test]
fn evenements_examines() {
    assert!(evenement_examine(GenreEvenement::Creation));
    assert!(evenement_examine(GenreEvenement::Modification));
    assert!(!evenement_examine(GenreEvenement::Autre));
}
