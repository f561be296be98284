//! Analyse des images par le serveur PIIA : adresse du service et
//! construction du résultat à partir de la réponse décodée. L'envoi HTTP et
//! le décodage JSON sont faits par l'application.

use vstd::prelude::*;
use base64::Engine;
use crate::texte::{sans_car_fin, retirer_fin};

verus! {

/// Résultat d'analyse retourné par PIIA.
#[derive(Debug, Clone)]
pub struct ResultatAnalyse {
    /// "ok", "defect", "absent".
    pub global_status: String,
    /// Vrai si la pièce est bonne.
    pub piece_ok: bool,
    /// Image annotée (octets JPEG) avec carte de chaleur et boîtes.
    pub image_annotee: Vec<u8>,
    /// Temps de traitement en ms.
    pub processing_time_ms: u64,
    /// Résultats par module (JSON mis en forme, pour affichage).
    pub details: String,
}

/// Adresse du service d'analyse pour une URL de base : l'URL sans ses `/`
/// finaux, suivie de « /api/external/analyse ».
pub open spec fn adresse_analyse(url: Seq<char>) -> Seq<char> {
    sans_car_fin(url, '/') + "/api/external/analyse"@
}

/// Adresse du service d'analyse.
pub fn url_analyse(url: &str) -> (r: String)
    ensures
        r@ == adresse_analyse(url@),
{
    let base = String::from_str(retirer_fin(url, '/'));
    base.concat("/api/external/analyse")
}

/// Délai d'établissement de la connexion HTTP : le délai configuré, au plus 2 s.
pub fn delai_connexion_ms(timeout_ms: u64) -> (r: u64)
    ensures
        r == if timeout_ms < 2000 {
            timeout_ms
        } else {
            2000
        },
{
    if timeout_ms < 2000 {
        timeout_ms
    } else {
        2000
    }
}

/// Ce que rend le décodage Base64 standard (alphabet RFC 4648, avec
/// remplissage) du texte : les octets, ou rien si le texte n'est pas du
/// Base64 valide.
pub uninterp spec fn decodage_base64(texte: Seq<char>) -> Option<Seq<u8>>;

/// Appelle `base64::engine::general_purpose::STANDARD.decode` sur les octets
/// du texte ; le contrat dit seulement que le résultat est `decodage_base64`
/// du texte, sans décrire l'alphabet ni les règles de remplissage.
#[verifier::external_body]
fn decoder_base64(texte: &str) -> (r: Option<Vec<u8>>)
    ensures
        match r {
            Some(v) => decodage_base64(texte@) == Some(v@),
            None => decodage_base64(texte@) is None,
        },
{
    base64::engine::general_purpose::STANDARD.decode(texte).ok()
}

impl ResultatAnalyse {
    /// Résultat formé des champs de la réponse et de l'image décodée ; sans
    /// image décodée, l'analyse est ignorée.
    pub fn assembler(
        global_status: String,
        piece_ok: bool,
        image: Option<Vec<u8>>,
        processing_time_ms: u64,
        details: String,
    ) -> (r: Option<ResultatAnalyse>)
        ensures
            match r {
                Some(ra) => {
                    &&& image matches Some(i) && ra.image_annotee@ == i@
                    &&& ra.global_status@ == global_status@
                    &&& ra.piece_ok == piece_ok
                    &&& ra.processing_time_ms == processing_time_ms
                    &&& ra.details@ == details@
                },
                None => image is None,
            },
    {
        match image {
            Some(image_annotee) => Some(
                ResultatAnalyse {
                    global_status,
                    piece_ok,
                    image_annotee,
                    processing_time_ms,
                    details,
                },
            ),
            None => None,
        }
    }

    /// Résultat tiré d'une réponse PIIA : l'image annotée arrive en Base64.
    pub fn depuis_reponse(
        global_status: String,
        piece_ok: bool,
        image_base64: &str,
        processing_time_ms: u64,
        details: String,
    ) -> (r: Option<ResultatAnalyse>)
        ensures
            match r {
                Some(ra) => {
                    &&& decodage_base64(image_base64@) == Some(ra.image_annotee@)
                    &&& ra.global_status@ == global_status@
                    &&& ra.piece_ok == piece_ok
                    &&& ra.processing_time_ms == processing_time_ms
                    &&& ra.details@ == details@
                },
                None => decodage_base64(image_base64@) is None,
            },
    {
        let image = decoder_base64(image_base64);
        ResultatAnalyse::assembler(global_status, piece_ok, image, processing_time_ms, details)
    }
}

} // verus!
