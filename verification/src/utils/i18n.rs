//! Translations of the interface texts into Spanish and French.

use vstd::prelude::*;
use crate::utils::text::str_eq;

verus! {

/// The upper-case form of `s`, as `str::to_uppercase` gives it.
pub uninterp spec fn uppercase_of(s: Seq<char>) -> Seq<char>;

/// Every character of `s` is ASCII.
pub open spec fn is_ascii_text(s: Seq<char>) -> bool {
    vstd::utf8::is_ascii_chars(s)
}

/// The ASCII upper case of a character: `a`..`z` become `A`..`Z`, others
/// stay.
pub open spec fn ascii_upper(c: char) -> char {
    if 'a' <= c && c <= 'z' { ((c as u32) - 32) as char } else { c }
}

/// Calls `str::to_uppercase`: the Unicode upper-case mapping of each
/// character. The mapping is named, not stated, except on ASCII text,
/// where Unicode's mapping is the ASCII one: `a`..`z` to `A`..`Z`, every
/// other character unchanged.
#[verifier::external_body]
pub(crate) fn to_uppercase(s: &str) -> (r: String)
    ensures
        r@ == uppercase_of(s@),
        is_ascii_text(s@) ==> r@ == s@.map_values(|c: char| ascii_upper(c)),
{
    s.to_uppercase()
}

/// The Spanish text of `key`, if the table has one.
pub open spec fn es_text(key: Seq<char>) -> Option<Seq<char>> {
    if key == "destinataire"@ {
        Some("Destinatario"@)
    } else if key == "adresse"@ {
        Some("Dirección"@)
    } else if key == "telephone"@ {
        Some("Teléfono"@)
    } else if key == "codes_porte"@ {
        Some("Códigos de puerta"@)
    } else if key == "acces_bal"@ {
        Some("Acceso BAL"@)
    } else if key == "indications_client"@ {
        Some("Indicaciones cliente"@)
    } else if key == "notes_chauffeur"@ {
        Some("Notas chofer"@)
    } else if key == "enregistrer"@ {
        Some("Guardar"@)
    } else if key == "annuler"@ {
        Some("Cancelar"@)
    } else if key == "modifier"@ {
        Some("Modificar"@)
    } else if key == "non_renseigne"@ {
        Some("No especificado"@)
    } else if key == "ajouter_note"@ {
        Some("Agregar una nota"@)
    } else if key == "nouvelle_adresse"@ {
        Some("Nueva dirección"@)
    } else if key == "code_de_porte"@ {
        Some("Código de puerta"@)
    } else if key == "oui"@ {
        Some("Sí"@)
    } else if key == "non"@ {
        Some("No"@)
    } else if key == "parametres"@ {
        Some("Parámetros"@)
    } else if key == "langue"@ {
        Some("Idioma"@)
    } else if key == "mode_edition"@ {
        Some("Modo edición"@)
    } else if key == "filtrer"@ {
        Some("Filtrar"@)
    } else if key == "codes_couleur"@ {
        Some("🎨 Códigos color"@)
    } else if key == "notifications_navigateur"@ {
        Some("Notificaciones del navegador"@)
    } else if key == "deconnexion"@ {
        Some("⎋ Desconexión"@)
    } else if key == "relais"@ {
        Some("RELAIS"@)
    } else if key == "rcs_premium"@ {
        Some("RCS (Premium)"@)
    } else if key == "livre"@ {
        Some("Entregado"@)
    } else if key == "non_livre"@ {
        Some("No entregado"@)
    } else if key == "en_transit"@ {
        Some("En tránsito"@)
    } else if key == "receptionne"@ {
        Some("Recibido"@)
    } else if key == "en_collecte"@ {
        Some("En recogida"@)
    } else if key == "route_optimizer"@ {
        Some("Route Optimizer"@)
    } else if key == "optimiser"@ {
        Some("Optimizar"@)
    } else if key == "scanner"@ {
        Some("Escanear"@)
    } else if key == "rafraichir"@ {
        Some("Refrescar"@)
    } else if key == "aucun_colis"@ {
        Some("No hay paquetes en la sesión"@)
    } else if key == "veuillez_rafraichir"@ {
        Some("Por favor refrescar o recargar la ronda"@)
    } else if key == "traitees"@ {
        Some("tratadas"@)
    } else if key == "livres"@ {
        Some("entregados"@)
    } else if key == "paquets"@ {
        Some("paquetes"@)
    } else if key == "oui_capital"@ {
        Some("Sí"@)
    } else if key == "non_capital"@ {
        Some("No"@)
    } else if key == "marquer_problematique"@ {
        Some("Marcar como problemático"@)
    } else if key == "problematique"@ {
        Some("Problemático"@)
    } else if key == "traçabilité"@ {
        Some("Trazabilidad"@)
    } else if key == "rechercher_tracking"@ {
        Some("Buscar tracking"@)
    } else if key == "rechercher"@ {
        Some("Buscar"@)
    } else if key == "saisir_tracking_rechercher"@ {
        Some("Introducir tracking y clicar en Buscar"@)
    } else if key == "aucun_colis_trouve"@ {
        Some("No se encontraron paquetes"@)
    } else if key == "erreur"@ {
        Some("Error"@)
    } else if key == "admin_dashboard"@ {
        Some("Panel Admin"@)
    } else if key == "buscar_tracking"@ {
        Some("Buscar tracking"@)
    } else if key == "demandes_en_attente"@ {
        Some("solicitudes pendientes"@)
    } else if key == "tableau_bord"@ {
        Some("Panel de control"@)
    } else if key == "chargement_paquets"@ {
        Some("Cargando paquetes..."@)
    } else if key == "demande"@ {
        Some("Solicitud"@)
    } else if key == "chargement"@ {
        Some("Cargando..."@)
    } else if key == "fermer"@ {
        Some("Cerrar"@)
    } else if key == "confirmer"@ {
        Some("Confirmar"@)
    } else if key == "demandes_changement_statut"@ {
        Some("Solicitudes de cambio de estado"@)
    } else if key == "apercu_excel"@ {
        Some("Vista previa Excel"@)
    } else if key == "masquer_apercu"@ {
        Some("Ocultar vista previa"@)
    } else if key == "exporter_excel"@ {
        Some("Exportar Excel"@)
    } else if key == "fermer_le_jour"@ {
        Some("Cerrar el día"@)
    } else if key == "ref_colis"@ {
        Some("REF COLIS (en mayúscula)"@)
    } else if key == "type_livraison"@ {
        Some("TIPO DE ENTREGA"@)
    } else if key == "en_attente"@ {
        Some("En espera"@)
    } else if key == "cliquer_voir_historique_confirmer"@ {
        Some("Clic para ver historial y confirmar"@)
    } else if key == "voulez_fermer_jour"@ {
        Some("¿Desea cerrar el día? Las solicitudes confirmadas pasarán a resueltas. Las sesiones de tournées también se eliminarán."@)
    } else if key == "export_terminée_fermer"@ {
        Some("Exportación terminada. ¿Desea cerrar el día y vaciar la vista previa? Las sesiones de tournées también se eliminarán."@)
    } else if key == "necessite_changement_statut"@ {
        Some("Requiere cambio de estado"@)
    } else if key == "type_livraison_label"@ {
        Some("Tipo de entrega"@)
    } else if key == "choisir_type_livraison"@ {
        Some("Elija el tipo de entrega para el Excel (C=CLIENT, G=GARDIEN, BAL, A=ACCUEIL, AH=ACCUEIL HOTEL)."@)
    } else if key == "tournees_colis_format"@ {
        Some("{} tournées • {} paquetes"@)
    } else if key == "tournees"@ {
        Some("tournées"@)
    } else if key == "colis_livres_statut"@ {
        Some("{} paquetes • {} entregados • {}"@)
    } else if key == "signale_par"@ {
        Some("Reportado por:"@)
    } else if key == "notes_label"@ {
        Some("Notas:"@)
    } else if key == "tournee_word"@ {
        Some("Tournée"@)
    } else if key == "paquets_tournee"@ {
        Some("Paquetes de la tournée"@)
    } else if key == "optimisation_routes"@ {
        Some("Optimización de Rutas de Entrega"@)
    } else if key == "type_utilisateur"@ {
        Some("Tipo de usuario"@)
    } else if key == "chauffeur"@ {
        Some("Conductor"@)
    } else if key == "admin"@ {
        Some("Admin"@)
    } else if key == "connexion"@ {
        Some("Conectar"@)
    } else if key == "utilisateur"@ {
        Some("Usuario"@)
    } else if key == "utilisateur_placeholder"@ {
        Some("Introduzca su nombre de usuario"@)
    } else if key == "mot_de_passe"@ {
        Some("Contraseña"@)
    } else if key == "mot_de_passe_placeholder"@ {
        Some("Introduzca su contraseña"@)
    } else if key == "entreprise"@ {
        Some("Empresa"@)
    } else if key == "selectionner_entreprise"@ {
        Some("Seleccionar empresa"@)
    } else if key == "buscar_empresa"@ {
        Some("Buscar empresa..."@)
    } else if key == "veuillez_remplir_champs"@ {
        Some("Por favor complete todos los campos"@)
    } else if key == "chargement_entreprises"@ {
        Some("Cargando empresas..."@)
    } else if key == "aucune_entreprise"@ {
        Some("No se encontraron empresas"@)
    } else if key == "buscar_tracking_title"@ {
        Some("Buscar Tracking"@)
    } else if key == "buscar_tracking_placeholder"@ {
        Some("Buscar tracking..."@)
    } else if key == "aucun_tracking"@ {
        Some("No se encontraron trackings"@)
    } else if key == "scanner_title"@ {
        Some("Escanear"@)
    } else if key == "cargando_sesion"@ {
        Some("Cargando sesión..."@)
    } else {
        None
    }
}

/// The French text of `key`, if the table has one.
pub open spec fn fr_text(key: Seq<char>) -> Option<Seq<char>> {
    if key == "destinataire"@ {
        Some("Destinataire"@)
    } else if key == "adresse"@ {
        Some("Adresse"@)
    } else if key == "telephone"@ {
        Some("Téléphone"@)
    } else if key == "codes_porte"@ {
        Some("Codes de porte"@)
    } else if key == "acces_bal"@ {
        Some("Accès BAL"@)
    } else if key == "indications_client"@ {
        Some("Indications client"@)
    } else if key == "notes_chauffeur"@ {
        Some("Notes chauffeur"@)
    } else if key == "enregistrer"@ {
        Some("Enregistrer"@)
    } else if key == "annuler"@ {
        Some("Annuler"@)
    } else if key == "modifier"@ {
        Some("Modifier"@)
    } else if key == "non_renseigne"@ {
        Some("Non renseigné"@)
    } else if key == "ajouter_note"@ {
        Some("Ajouter une note"@)
    } else if key == "nouvelle_adresse"@ {
        Some("Nouvelle adresse"@)
    } else if key == "code_de_porte"@ {
        Some("Code de porte"@)
    } else if key == "oui"@ {
        Some("Oui"@)
    } else if key == "non"@ {
        Some("Non"@)
    } else if key == "parametres"@ {
        Some("Paramètres"@)
    } else if key == "langue"@ {
        Some("Langue"@)
    } else if key == "mode_edition"@ {
        Some("Mode édition"@)
    } else if key == "filtrer"@ {
        Some("Filtrer"@)
    } else if key == "codes_couleur"@ {
        Some("🎨 Codes couleur"@)
    } else if key == "notifications_navigateur"@ {
        Some("Notifications du navigateur"@)
    } else if key == "deconnexion"@ {
        Some("⎋ Déconnexion"@)
    } else if key == "relais"@ {
        Some("RELAIS"@)
    } else if key == "rcs_premium"@ {
        Some("RCS (Premium)"@)
    } else if key == "livre"@ {
        Some("Livré"@)
    } else if key == "non_livre"@ {
        Some("Non livré"@)
    } else if key == "en_transit"@ {
        Some("En transit"@)
    } else if key == "receptionne"@ {
        Some("Réceptionné"@)
    } else if key == "en_collecte"@ {
        Some("En collecte"@)
    } else if key == "route_optimizer"@ {
        Some("Route Optimizer"@)
    } else if key == "optimiser"@ {
        Some("Optimiser"@)
    } else if key == "scanner"@ {
        Some("Scanner"@)
    } else if key == "rafraichir"@ {
        Some("Rafraîchir"@)
    } else if key == "aucun_colis"@ {
        Some("Aucun colis dans la session"@)
    } else if key == "veuillez_rafraichir"@ {
        Some("Veuillez rafraîchir ou recharger la tournée"@)
    } else if key == "traitees"@ {
        Some("traitées"@)
    } else if key == "livres"@ {
        Some("livrés"@)
    } else if key == "paquets"@ {
        Some("paquets"@)
    } else if key == "oui_capital"@ {
        Some("Oui"@)
    } else if key == "non_capital"@ {
        Some("Non"@)
    } else if key == "marquer_problematique"@ {
        Some("Marquer comme problématique"@)
    } else if key == "problematique"@ {
        Some("Problématique"@)
    } else if key == "traçabilité"@ {
        Some("Traçabilité"@)
    } else if key == "rechercher_tracking"@ {
        Some("Rechercher un tracking"@)
    } else if key == "rechercher"@ {
        Some("Rechercher"@)
    } else if key == "saisir_tracking_rechercher"@ {
        Some("Saisir un tracking et cliquer sur Rechercher"@)
    } else if key == "aucun_colis_trouve"@ {
        Some("Aucun colis trouvé"@)
    } else if key == "erreur"@ {
        Some("Erreur"@)
    } else if key == "admin_dashboard"@ {
        Some("Admin Dashboard"@)
    } else if key == "buscar_tracking"@ {
        Some("Rechercher tracking"@)
    } else if key == "demandes_en_attente"@ {
        Some("demandes en attente"@)
    } else if key == "tableau_bord"@ {
        Some("Tableau de bord"@)
    } else if key == "chargement_paquets"@ {
        Some("Chargement des paquets..."@)
    } else if key == "demande"@ {
        Some("Demande"@)
    } else if key == "chargement"@ {
        Some("Chargement..."@)
    } else if key == "fermer"@ {
        Some("Fermer"@)
    } else if key == "confirmer"@ {
        Some("Confirmer"@)
    } else if key == "demandes_changement_statut"@ {
        Some("Demandes de changement de statut"@)
    } else if key == "apercu_excel"@ {
        Some("Aperçu Excel"@)
    } else if key == "masquer_apercu"@ {
        Some("Masquer aperçu"@)
    } else if key == "exporter_excel"@ {
        Some("Exporter Excel"@)
    } else if key == "fermer_le_jour"@ {
        Some("Fermer le jour"@)
    } else if key == "ref_colis"@ {
        Some("REF COLIS (en majuscule)"@)
    } else if key == "type_livraison"@ {
        Some("TYPE DE LIVRAISON"@)
    } else if key == "en_attente"@ {
        Some("En attente"@)
    } else if key == "cliquer_voir_historique_confirmer"@ {
        Some("Cliquer pour voir l'historique et confirmer"@)
    } else if key == "voulez_fermer_jour"@ {
        Some("Voulez-vous fermer le jour ? Les demandes confirmées passeront à résolues. Les sessions de tournées seront également supprimées."@)
    } else if key == "export_terminée_fermer"@ {
        Some("Exportation terminée. Voulez-vous fermer le jour et vider l'aperçu ? Les sessions de tournées seront également supprimées."@)
    } else if key == "necessite_changement_statut"@ {
        Some("Nécessite changement de statut"@)
    } else if key == "type_livraison_label"@ {
        Some("Type de livraison"@)
    } else if key == "choisir_type_livraison"@ {
        Some("Choisissez le type de livraison pour l'Excel (C=CLIENT, G=GARDIEN, BAL, A=ACCUEIL, AH=ACCUEIL HOTEL)."@)
    } else if key == "tournees_colis_format"@ {
        Some("{} tournées • {} colis"@)
    } else if key == "tournees"@ {
        Some("tournées"@)
    } else if key == "colis_livres_statut"@ {
        Some("{} colis • {} livrés • {}"@)
    } else if key == "signale_par"@ {
        Some("Signalé par:"@)
    } else if key == "notes_label"@ {
        Some("Notes:"@)
    } else if key == "tournee_word"@ {
        Some("Tournée"@)
    } else if key == "paquets_tournee"@ {
        Some("Paquets de la tournée"@)
    } else if key == "optimisation_routes"@ {
        Some("Optimisation de Routes de Livraison"@)
    } else if key == "type_utilisateur"@ {
        Some("Type d'utilisateur"@)
    } else if key == "chauffeur"@ {
        Some("Chauffeur"@)
    } else if key == "admin"@ {
        Some("Admin"@)
    } else if key == "connexion"@ {
        Some("Se connecter"@)
    } else if key == "utilisateur"@ {
        Some("Utilisateur"@)
    } else if key == "utilisateur_placeholder"@ {
        Some("Entrez votre nom d'utilisateur"@)
    } else if key == "mot_de_passe"@ {
        Some("Mot de passe"@)
    } else if key == "mot_de_passe_placeholder"@ {
        Some("Entrez votre mot de passe"@)
    } else if key == "entreprise"@ {
        Some("Entreprise"@)
    } else if key == "selectionner_entreprise"@ {
        Some("Sélectionner l'entreprise"@)
    } else if key == "buscar_empresa"@ {
        Some("Rechercher entreprise..."@)
    } else if key == "veuillez_remplir_champs"@ {
        Some("Veuillez remplir tous les champs"@)
    } else if key == "chargement_entreprises"@ {
        Some("Chargement des entreprises..."@)
    } else if key == "aucune_entreprise"@ {
        Some("Aucune entreprise trouvée"@)
    } else if key == "buscar_tracking_title"@ {
        Some("Rechercher Tracking"@)
    } else if key == "buscar_tracking_placeholder"@ {
        Some("Rechercher un tracking..."@)
    } else if key == "aucun_tracking"@ {
        Some("Aucun tracking trouvé"@)
    } else if key == "scanner_title"@ {
        Some("Scanner"@)
    } else if key == "cargando_sesion"@ {
        Some("Chargement de la session..."@)
    } else {
        None
    }
}

/// The Spanish and French tables translate the same keys, and every text
/// in them is non-empty.
pub proof fn law_tables_share_keys(key: Seq<char>)
    ensures
        es_text(key) is Some <==> fr_text(key) is Some,
        es_text(key) matches Some(t) ==> t.len() > 0,
        fr_text(key) matches Some(t) ==> t.len() > 0,
{
    reveal_strlit("Destinatario");
    reveal_strlit("Dirección");
    reveal_strlit("Teléfono");
    reveal_strlit("Códigos de puerta");
    reveal_strlit("Acceso BAL");
    reveal_strlit("Indicaciones cliente");
    reveal_strlit("Notas chofer");
    reveal_strlit("Guardar");
    reveal_strlit("Cancelar");
    reveal_strlit("Modificar");
    reveal_strlit("No especificado");
    reveal_strlit("Agregar una nota");
    reveal_strlit("Nueva dirección");
    reveal_strlit("Código de puerta");
    reveal_strlit("Sí");
    reveal_strlit("No");
    reveal_strlit("Parámetros");
    reveal_strlit("Idioma");
    reveal_strlit("Modo edición");
    reveal_strlit("Filtrar");
    reveal_strlit("🎨 Códigos color");
    reveal_strlit("Notificaciones del navegador");
    reveal_strlit("⎋ Desconexión");
    reveal_strlit("RELAIS");
    reveal_strlit("RCS (Premium)");
    reveal_strlit("Entregado");
    reveal_strlit("No entregado");
    reveal_strlit("En tránsito");
    reveal_strlit("Recibido");
    reveal_strlit("En recogida");
    reveal_strlit("Route Optimizer");
    reveal_strlit("Optimizar");
    reveal_strlit("Escanear");
    reveal_strlit("Refrescar");
    reveal_strlit("No hay paquetes en la sesión");
    reveal_strlit("Por favor refrescar o recargar la ronda");
    reveal_strlit("tratadas");
    reveal_strlit("entregados");
    reveal_strlit("paquetes");
    reveal_strlit("Sí");
    reveal_strlit("No");
    reveal_strlit("Marcar como problemático");
    reveal_strlit("Problemático");
    reveal_strlit("Trazabilidad");
    reveal_strlit("Buscar tracking");
    reveal_strlit("Buscar");
    reveal_strlit("Introducir tracking y clicar en Buscar");
    reveal_strlit("No se encontraron paquetes");
    reveal_strlit("Error");
    reveal_strlit("Panel Admin");
    reveal_strlit("Buscar tracking");
    reveal_strlit("solicitudes pendientes");
    reveal_strlit("Panel de control");
    reveal_strlit("Cargando paquetes...");
    reveal_strlit("Solicitud");
    reveal_strlit("Cargando...");
    reveal_strlit("Cerrar");
    reveal_strlit("Confirmar");
    reveal_strlit("Solicitudes de cambio de estado");
    reveal_strlit("Vista previa Excel");
    reveal_strlit("Ocultar vista previa");
    reveal_strlit("Exportar Excel");
    reveal_strlit("Cerrar el día");
    reveal_strlit("REF COLIS (en mayúscula)");
    reveal_strlit("TIPO DE ENTREGA");
    reveal_strlit("En espera");
    reveal_strlit("Clic para ver historial y confirmar");
    reveal_strlit("¿Desea cerrar el día? Las solicitudes confirmadas pasarán a resueltas. Las sesiones de tournées también se eliminarán.");
    reveal_strlit("Exportación terminada. ¿Desea cerrar el día y vaciar la vista previa? Las sesiones de tournées también se eliminarán.");
    reveal_strlit("Requiere cambio de estado");
    reveal_strlit("Tipo de entrega");
    reveal_strlit("Elija el tipo de entrega para el Excel (C=CLIENT, G=GARDIEN, BAL, A=ACCUEIL, AH=ACCUEIL HOTEL).");
    reveal_strlit("{} tournées • {} paquetes");
    reveal_strlit("tournées");
    reveal_strlit("{} paquetes • {} entregados • {}");
    reveal_strlit("Reportado por:");
    reveal_strlit("Notas:");
    reveal_strlit("Tournée");
    reveal_strlit("Paquetes de la tournée");
    reveal_strlit("Optimización de Rutas de Entrega");
    reveal_strlit("Tipo de usuario");
    reveal_strlit("Conductor");
    reveal_strlit("Admin");
    reveal_strlit("Conectar");
    reveal_strlit("Usuario");
    reveal_strlit("Introduzca su nombre de usuario");
    reveal_strlit("Contraseña");
    reveal_strlit("Introduzca su contraseña");
    reveal_strlit("Empresa");
    reveal_strlit("Seleccionar empresa");
    reveal_strlit("Buscar empresa...");
    reveal_strlit("Por favor complete todos los campos");
    reveal_strlit("Cargando empresas...");
    reveal_strlit("No se encontraron empresas");
    reveal_strlit("Buscar Tracking");
    reveal_strlit("Buscar tracking...");
    reveal_strlit("No se encontraron trackings");
    reveal_strlit("Escanear");
    reveal_strlit("Cargando sesión...");
    reveal_strlit("Destinataire");
    reveal_strlit("Adresse");
    reveal_strlit("Téléphone");
    reveal_strlit("Codes de porte");
    reveal_strlit("Accès BAL");
    reveal_strlit("Indications client");
    reveal_strlit("Notes chauffeur");
    reveal_strlit("Enregistrer");
    reveal_strlit("Annuler");
    reveal_strlit("Modifier");
    reveal_strlit("Non renseigné");
    reveal_strlit("Ajouter une note");
    reveal_strlit("Nouvelle adresse");
    reveal_strlit("Code de porte");
    reveal_strlit("Oui");
    reveal_strlit("Non");
    reveal_strlit("Paramètres");
    reveal_strlit("Langue");
    reveal_strlit("Mode édition");
    reveal_strlit("Filtrer");
    reveal_strlit("🎨 Codes couleur");
    reveal_strlit("Notifications du navigateur");
    reveal_strlit("⎋ Déconnexion");
    reveal_strlit("RELAIS");
    reveal_strlit("RCS (Premium)");
    reveal_strlit("Livré");
    reveal_strlit("Non livré");
    reveal_strlit("En transit");
    reveal_strlit("Réceptionné");
    reveal_strlit("En collecte");
    reveal_strlit("Route Optimizer");
    reveal_strlit("Optimiser");
    reveal_strlit("Scanner");
    reveal_strlit("Rafraîchir");
    reveal_strlit("Aucun colis dans la session");
    reveal_strlit("Veuillez rafraîchir ou recharger la tournée");
    reveal_strlit("traitées");
    reveal_strlit("livrés");
    reveal_strlit("paquets");
    reveal_strlit("Oui");
    reveal_strlit("Non");
    reveal_strlit("Marquer comme problématique");
    reveal_strlit("Problématique");
    reveal_strlit("Traçabilité");
    reveal_strlit("Rechercher un tracking");
    reveal_strlit("Rechercher");
    reveal_strlit("Saisir un tracking et cliquer sur Rechercher");
    reveal_strlit("Aucun colis trouvé");
    reveal_strlit("Erreur");
    reveal_strlit("Admin Dashboard");
    reveal_strlit("Rechercher tracking");
    reveal_strlit("demandes en attente");
    reveal_strlit("Tableau de bord");
    reveal_strlit("Chargement des paquets...");
    reveal_strlit("Demande");
    reveal_strlit("Chargement...");
    reveal_strlit("Fermer");
    reveal_strlit("Confirmer");
    reveal_strlit("Demandes de changement de statut");
    reveal_strlit("Aperçu Excel");
    reveal_strlit("Masquer aperçu");
    reveal_strlit("Exporter Excel");
    reveal_strlit("Fermer le jour");
    reveal_strlit("REF COLIS (en majuscule)");
    reveal_strlit("TYPE DE LIVRAISON");
    reveal_strlit("En attente");
    reveal_strlit("Cliquer pour voir l'historique et confirmer");
    reveal_strlit("Voulez-vous fermer le jour ? Les demandes confirmées passeront à résolues. Les sessions de tournées seront également supprimées.");
    reveal_strlit("Exportation terminée. Voulez-vous fermer le jour et vider l'aperçu ? Les sessions de tournées seront également supprimées.");
    reveal_strlit("Nécessite changement de statut");
    reveal_strlit("Type de livraison");
    reveal_strlit("Choisissez le type de livraison pour l'Excel (C=CLIENT, G=GARDIEN, BAL, A=ACCUEIL, AH=ACCUEIL HOTEL).");
    reveal_strlit("{} tournées • {} colis");
    reveal_strlit("tournées");
    reveal_strlit("{} colis • {} livrés • {}");
    reveal_strlit("Signalé par:");
    reveal_strlit("Notes:");
    reveal_strlit("Tournée");
    reveal_strlit("Paquets de la tournée");
    reveal_strlit("Optimisation de Routes de Livraison");
    reveal_strlit("Type d'utilisateur");
    reveal_strlit("Chauffeur");
    reveal_strlit("Admin");
    reveal_strlit("Se connecter");
    reveal_strlit("Utilisateur");
    reveal_strlit("Entrez votre nom d'utilisateur");
    reveal_strlit("Mot de passe");
    reveal_strlit("Entrez votre mot de passe");
    reveal_strlit("Entreprise");
    reveal_strlit("Sélectionner l'entreprise");
    reveal_strlit("Rechercher entreprise...");
    reveal_strlit("Veuillez remplir tous les champs");
    reveal_strlit("Chargement des entreprises...");
    reveal_strlit("Aucune entreprise trouvée");
    reveal_strlit("Rechercher Tracking");
    reveal_strlit("Rechercher un tracking...");
    reveal_strlit("Aucun tracking trouvé");
    reveal_strlit("Scanner");
    reveal_strlit("Chargement de la session...");
}

/// The `i`-th key of the translation tables, in the tables' order.
pub open spec fn table_key(i: int) -> Seq<char> {
    if i == 0 {
        "destinataire"@
    } else if i == 1 {
        "adresse"@
    } else if i == 2 {
        "telephone"@
    } else if i == 3 {
        "codes_porte"@
    } else if i == 4 {
        "acces_bal"@
    } else if i == 5 {
        "indications_client"@
    } else if i == 6 {
        "notes_chauffeur"@
    } else if i == 7 {
        "enregistrer"@
    } else if i == 8 {
        "annuler"@
    } else if i == 9 {
        "modifier"@
    } else if i == 10 {
        "non_renseigne"@
    } else if i == 11 {
        "ajouter_note"@
    } else if i == 12 {
        "nouvelle_adresse"@
    } else if i == 13 {
        "code_de_porte"@
    } else if i == 14 {
        "oui"@
    } else if i == 15 {
        "non"@
    } else if i == 16 {
        "parametres"@
    } else if i == 17 {
        "langue"@
    } else if i == 18 {
        "mode_edition"@
    } else if i == 19 {
        "filtrer"@
    } else if i == 20 {
        "codes_couleur"@
    } else if i == 21 {
        "notifications_navigateur"@
    } else if i == 22 {
        "deconnexion"@
    } else if i == 23 {
        "relais"@
    } else if i == 24 {
        "rcs_premium"@
    } else if i == 25 {
        "livre"@
    } else if i == 26 {
        "non_livre"@
    } else if i == 27 {
        "en_transit"@
    } else if i == 28 {
        "receptionne"@
    } else if i == 29 {
        "en_collecte"@
    } else if i == 30 {
        "route_optimizer"@
    } else if i == 31 {
        "optimiser"@
    } else if i == 32 {
        "scanner"@
    } else if i == 33 {
        "rafraichir"@
    } else if i == 34 {
        "aucun_colis"@
    } else if i == 35 {
        "veuillez_rafraichir"@
    } else if i == 36 {
        "traitees"@
    } else if i == 37 {
        "livres"@
    } else if i == 38 {
        "paquets"@
    } else if i == 39 {
        "oui_capital"@
    } else if i == 40 {
        "non_capital"@
    } else if i == 41 {
        "marquer_problematique"@
    } else if i == 42 {
        "problematique"@
    } else if i == 43 {
        "traçabilité"@
    } else if i == 44 {
        "rechercher_tracking"@
    } else if i == 45 {
        "rechercher"@
    } else if i == 46 {
        "saisir_tracking_rechercher"@
    } else if i == 47 {
        "aucun_colis_trouve"@
    } else if i == 48 {
        "erreur"@
    } else if i == 49 {
        "admin_dashboard"@
    } else if i == 50 {
        "buscar_tracking"@
    } else if i == 51 {
        "demandes_en_attente"@
    } else if i == 52 {
        "tableau_bord"@
    } else if i == 53 {
        "chargement_paquets"@
    } else if i == 54 {
        "demande"@
    } else if i == 55 {
        "chargement"@
    } else if i == 56 {
        "fermer"@
    } else if i == 57 {
        "confirmer"@
    } else if i == 58 {
        "demandes_changement_statut"@
    } else if i == 59 {
        "apercu_excel"@
    } else if i == 60 {
        "masquer_apercu"@
    } else if i == 61 {
        "exporter_excel"@
    } else if i == 62 {
        "fermer_le_jour"@
    } else if i == 63 {
        "ref_colis"@
    } else if i == 64 {
        "type_livraison"@
    } else if i == 65 {
        "en_attente"@
    } else if i == 66 {
        "cliquer_voir_historique_confirmer"@
    } else if i == 67 {
        "voulez_fermer_jour"@
    } else if i == 68 {
        "export_terminée_fermer"@
    } else if i == 69 {
        "necessite_changement_statut"@
    } else if i == 70 {
        "type_livraison_label"@
    } else if i == 71 {
        "choisir_type_livraison"@
    } else if i == 72 {
        "tournees_colis_format"@
    } else if i == 73 {
        "tournees"@
    } else if i == 74 {
        "colis_livres_statut"@
    } else if i == 75 {
        "signale_par"@
    } else if i == 76 {
        "notes_label"@
    } else if i == 77 {
        "tournee_word"@
    } else if i == 78 {
        "paquets_tournee"@
    } else if i == 79 {
        "optimisation_routes"@
    } else if i == 80 {
        "type_utilisateur"@
    } else if i == 81 {
        "chauffeur"@
    } else if i == 82 {
        "admin"@
    } else if i == 83 {
        "connexion"@
    } else if i == 84 {
        "utilisateur"@
    } else if i == 85 {
        "utilisateur_placeholder"@
    } else if i == 86 {
        "mot_de_passe"@
    } else if i == 87 {
        "mot_de_passe_placeholder"@
    } else if i == 88 {
        "entreprise"@
    } else if i == 89 {
        "selectionner_entreprise"@
    } else if i == 90 {
        "buscar_empresa"@
    } else if i == 91 {
        "veuillez_remplir_champs"@
    } else if i == 92 {
        "chargement_entreprises"@
    } else if i == 93 {
        "aucune_entreprise"@
    } else if i == 94 {
        "buscar_tracking_title"@
    } else if i == 95 {
        "buscar_tracking_placeholder"@
    } else if i == 96 {
        "aucun_tracking"@
    } else if i == 97 {
        "scanner_title"@
    } else if i == 98 {
        "cargando_sesion"@
    } else {
        Seq::empty()
    }
}

/// The position of `k` among the tables' keys; -1 for any other text.
pub open spec fn key_index(k: Seq<char>) -> int {
    if k == "destinataire"@ {
        0
    } else if k == "adresse"@ {
        1
    } else if k == "telephone"@ {
        2
    } else if k == "codes_porte"@ {
        3
    } else if k == "acces_bal"@ {
        4
    } else if k == "indications_client"@ {
        5
    } else if k == "notes_chauffeur"@ {
        6
    } else if k == "enregistrer"@ {
        7
    } else if k == "annuler"@ {
        8
    } else if k == "modifier"@ {
        9
    } else if k == "non_renseigne"@ {
        10
    } else if k == "ajouter_note"@ {
        11
    } else if k == "nouvelle_adresse"@ {
        12
    } else if k == "code_de_porte"@ {
        13
    } else if k == "oui"@ {
        14
    } else if k == "non"@ {
        15
    } else if k == "parametres"@ {
        16
    } else if k == "langue"@ {
        17
    } else if k == "mode_edition"@ {
        18
    } else if k == "filtrer"@ {
        19
    } else if k == "codes_couleur"@ {
        20
    } else if k == "notifications_navigateur"@ {
        21
    } else if k == "deconnexion"@ {
        22
    } else if k == "relais"@ {
        23
    } else if k == "rcs_premium"@ {
        24
    } else if k == "livre"@ {
        25
    } else if k == "non_livre"@ {
        26
    } else if k == "en_transit"@ {
        27
    } else if k == "receptionne"@ {
        28
    } else if k == "en_collecte"@ {
        29
    } else if k == "route_optimizer"@ {
        30
    } else if k == "optimiser"@ {
        31
    } else if k == "scanner"@ {
        32
    } else if k == "rafraichir"@ {
        33
    } else if k == "aucun_colis"@ {
        34
    } else if k == "veuillez_rafraichir"@ {
        35
    } else if k == "traitees"@ {
        36
    } else if k == "livres"@ {
        37
    } else if k == "paquets"@ {
        38
    } else if k == "oui_capital"@ {
        39
    } else if k == "non_capital"@ {
        40
    } else if k == "marquer_problematique"@ {
        41
    } else if k == "problematique"@ {
        42
    } else if k == "traçabilité"@ {
        43
    } else if k == "rechercher_tracking"@ {
        44
    } else if k == "rechercher"@ {
        45
    } else if k == "saisir_tracking_rechercher"@ {
        46
    } else if k == "aucun_colis_trouve"@ {
        47
    } else if k == "erreur"@ {
        48
    } else if k == "admin_dashboard"@ {
        49
    } else if k == "buscar_tracking"@ {
        50
    } else if k == "demandes_en_attente"@ {
        51
    } else if k == "tableau_bord"@ {
        52
    } else if k == "chargement_paquets"@ {
        53
    } else if k == "demande"@ {
        54
    } else if k == "chargement"@ {
        55
    } else if k == "fermer"@ {
        56
    } else if k == "confirmer"@ {
        57
    } else if k == "demandes_changement_statut"@ {
        58
    } else if k == "apercu_excel"@ {
        59
    } else if k == "masquer_apercu"@ {
        60
    } else if k == "exporter_excel"@ {
        61
    } else if k == "fermer_le_jour"@ {
        62
    } else if k == "ref_colis"@ {
        63
    } else if k == "type_livraison"@ {
        64
    } else if k == "en_attente"@ {
        65
    } else if k == "cliquer_voir_historique_confirmer"@ {
        66
    } else if k == "voulez_fermer_jour"@ {
        67
    } else if k == "export_terminée_fermer"@ {
        68
    } else if k == "necessite_changement_statut"@ {
        69
    } else if k == "type_livraison_label"@ {
        70
    } else if k == "choisir_type_livraison"@ {
        71
    } else if k == "tournees_colis_format"@ {
        72
    } else if k == "tournees"@ {
        73
    } else if k == "colis_livres_statut"@ {
        74
    } else if k == "signale_par"@ {
        75
    } else if k == "notes_label"@ {
        76
    } else if k == "tournee_word"@ {
        77
    } else if k == "paquets_tournee"@ {
        78
    } else if k == "optimisation_routes"@ {
        79
    } else if k == "type_utilisateur"@ {
        80
    } else if k == "chauffeur"@ {
        81
    } else if k == "admin"@ {
        82
    } else if k == "connexion"@ {
        83
    } else if k == "utilisateur"@ {
        84
    } else if k == "utilisateur_placeholder"@ {
        85
    } else if k == "mot_de_passe"@ {
        86
    } else if k == "mot_de_passe_placeholder"@ {
        87
    } else if k == "entreprise"@ {
        88
    } else if k == "selectionner_entreprise"@ {
        89
    } else if k == "buscar_empresa"@ {
        90
    } else if k == "veuillez_remplir_champs"@ {
        91
    } else if k == "chargement_entreprises"@ {
        92
    } else if k == "aucune_entreprise"@ {
        93
    } else if k == "buscar_tracking_title"@ {
        94
    } else if k == "buscar_tracking_placeholder"@ {
        95
    } else if k == "aucun_tracking"@ {
        96
    } else if k == "scanner_title"@ {
        97
    } else if k == "cargando_sesion"@ {
        98
    } else {
        -1
    }
}

/// The keys at positions 0 to 9 have those positions.
#[verifier::rlimit(100)]
proof fn lemma_key_positions_0_9()
    ensures
        forall|i: int| 0 <= i < 10 ==> #[trigger] key_index(table_key(i)) == i,
{
    reveal_strlit("destinataire");
    reveal_strlit("adresse");
    reveal_strlit("telephone");
    reveal_strlit("codes_porte");
    reveal_strlit("acces_bal");
    reveal_strlit("indications_client");
    reveal_strlit("notes_chauffeur");
    reveal_strlit("enregistrer");
    reveal_strlit("annuler");
    reveal_strlit("modifier");
    assert("destinataire"@.len() == 12);
    assert("adresse"@.len() == 7);
    assert("telephone"@.len() == 9);
    assert("codes_porte"@.len() == 11);
    assert("acces_bal"@.len() == 9);
    assert("indications_client"@.len() == 18);
    assert("notes_chauffeur"@.len() == 15);
    assert("enregistrer"@.len() == 11);
    assert("annuler"@.len() == 7);
    assert("modifier"@.len() == 8);
    assert("adresse"@[1] == 'd');
    assert("telephone"@[0] == 't');
    assert("codes_porte"@[0] == 'c');
    assert("acces_bal"@[0] == 'a');
    assert("enregistrer"@[0] == 'e');
    assert("annuler"@[1] == 'n');
    assert(key_index(table_key(0)) == 0);
    assert(key_index(table_key(1)) == 1);
    assert(key_index(table_key(2)) == 2);
    assert(key_index(table_key(3)) == 3);
    assert(key_index(table_key(4)) == 4);
    assert(key_index(table_key(5)) == 5);
    assert(key_index(table_key(6)) == 6);
    assert(key_index(table_key(7)) == 7);
    assert(key_index(table_key(8)) == 8);
    assert(key_index(table_key(9)) == 9);
    assert forall|i: int| 0 <= i < 10 implies #[trigger] key_index(table_key(i)) == i by {
        assert(0 <= i < 10);
    }
}

/// The keys at positions 10 to 19 have those positions.
#[verifier::rlimit(100)]
proof fn lemma_key_positions_10_19()
    ensures
        forall|i: int| 10 <= i < 20 ==> #[trigger] key_index(table_key(i)) == i,
{
    reveal_strlit("destinataire");
    reveal_strlit("adresse");
    reveal_strlit("telephone");
    reveal_strlit("codes_porte");
    reveal_strlit("acces_bal");
    reveal_strlit("indications_client");
    reveal_strlit("notes_chauffeur");
    reveal_strlit("enregistrer");
    reveal_strlit("annuler");
    reveal_strlit("modifier");
    reveal_strlit("non_renseigne");
    reveal_strlit("ajouter_note");
    reveal_strlit("nouvelle_adresse");
    reveal_strlit("code_de_porte");
    reveal_strlit("oui");
    reveal_strlit("non");
    reveal_strlit("parametres");
    reveal_strlit("langue");
    reveal_strlit("mode_edition");
    reveal_strlit("filtrer");
    assert("destinataire"@.len() == 12);
    assert("adresse"@.len() == 7);
    assert("telephone"@.len() == 9);
    assert("codes_porte"@.len() == 11);
    assert("acces_bal"@.len() == 9);
    assert("indications_client"@.len() == 18);
    assert("notes_chauffeur"@.len() == 15);
    assert("enregistrer"@.len() == 11);
    assert("annuler"@.len() == 7);
    assert("modifier"@.len() == 8);
    assert("non_renseigne"@.len() == 13);
    assert("ajouter_note"@.len() == 12);
    assert("nouvelle_adresse"@.len() == 16);
    assert("code_de_porte"@.len() == 13);
    assert("oui"@.len() == 3);
    assert("non"@.len() == 3);
    assert("parametres"@.len() == 10);
    assert("langue"@.len() == 6);
    assert("mode_edition"@.len() == 12);
    assert("filtrer"@.len() == 7);
    assert("destinataire"@[0] == 'd');
    assert("adresse"@[0] == 'a');
    assert("annuler"@[0] == 'a');
    assert("non_renseigne"@[0] == 'n');
    assert("ajouter_note"@[0] == 'a');
    assert("code_de_porte"@[0] == 'c');
    assert("oui"@[0] == 'o');
    assert("non"@[0] == 'n');
    assert("mode_edition"@[0] == 'm');
    assert("filtrer"@[0] == 'f');
    assert(key_index(table_key(10)) == 10);
    assert(key_index(table_key(11)) == 11);
    assert(key_index(table_key(12)) == 12);
    assert(key_index(table_key(13)) == 13);
    assert(key_index(table_key(14)) == 14);
    assert(key_index(table_key(15)) == 15);
    assert(key_index(table_key(16)) == 16);
    assert(key_index(table_key(17)) == 17);
    assert(key_index(table_key(18)) == 18);
    assert(key_index(table_key(19)) == 19);
    assert forall|i: int| 10 <= i < 20 implies #[trigger] key_index(table_key(i)) == i by {
        assert(10 <= i < 20);
    }
}

/// The keys at positions 20 to 29 have those positions.
#[verifier::rlimit(100)]
proof fn lemma_key_positions_20_29()
    ensures
        forall|i: int| 20 <= i < 30 ==> #[trigger] key_index(table_key(i)) == i,
{
    reveal_strlit("destinataire");
    reveal_strlit("adresse");
    reveal_strlit("telephone");
    reveal_strlit("codes_porte");
    reveal_strlit("acces_bal");
    reveal_strlit("indications_client");
    reveal_strlit("notes_chauffeur");
    reveal_strlit("enregistrer");
    reveal_strlit("annuler");
    reveal_strlit("modifier");
    reveal_strlit("non_renseigne");
    reveal_strlit("ajouter_note");
    reveal_strlit("nouvelle_adresse");
    reveal_strlit("code_de_porte");
    reveal_strlit("oui");
    reveal_strlit("non");
    reveal_strlit("parametres");
    reveal_strlit("langue");
    reveal_strlit("mode_edition");
    reveal_strlit("filtrer");
    reveal_strlit("codes_couleur");
    reveal_strlit("notifications_navigateur");
    reveal_strlit("deconnexion");
    reveal_strlit("relais");
    reveal_strlit("rcs_premium");
    reveal_strlit("livre");
    reveal_strlit("non_livre");
    reveal_strlit("en_transit");
    reveal_strlit("receptionne");
    reveal_strlit("en_collecte");
    assert("destinataire"@.len() == 12);
    assert("adresse"@.len() == 7);
    assert("telephone"@.len() == 9);
    assert("codes_porte"@.len() == 11);
    assert("acces_bal"@.len() == 9);
    assert("indications_client"@.len() == 18);
    assert("notes_chauffeur"@.len() == 15);
    assert("enregistrer"@.len() == 11);
    assert("annuler"@.len() == 7);
    assert("modifier"@.len() == 8);
    assert("non_renseigne"@.len() == 13);
    assert("ajouter_note"@.len() == 12);
    assert("nouvelle_adresse"@.len() == 16);
    assert("code_de_porte"@.len() == 13);
    assert("oui"@.len() == 3);
    assert("non"@.len() == 3);
    assert("parametres"@.len() == 10);
    assert("langue"@.len() == 6);
    assert("mode_edition"@.len() == 12);
    assert("filtrer"@.len() == 7);
    assert("codes_couleur"@.len() == 13);
    assert("notifications_navigateur"@.len() == 24);
    assert("deconnexion"@.len() == 11);
    assert("relais"@.len() == 6);
    assert("rcs_premium"@.len() == 11);
    assert("livre"@.len() == 5);
    assert("non_livre"@.len() == 9);
    assert("en_transit"@.len() == 10);
    assert("receptionne"@.len() == 11);
    assert("en_collecte"@.len() == 11);
    assert("telephone"@[0] == 't');
    assert("codes_porte"@[0] == 'c');
    assert("acces_bal"@[0] == 'a');
    assert("enregistrer"@[0] == 'e');
    assert("enregistrer"@[2] == 'r');
    assert("non_renseigne"@[0] == 'n');
    assert("code_de_porte"@[4] == '_');
    assert("parametres"@[0] == 'p');
    assert("langue"@[0] == 'l');
    assert("codes_couleur"@[0] == 'c');
    assert("codes_couleur"@[4] == 's');
    assert("deconnexion"@[0] == 'd');
    assert("relais"@[0] == 'r');
    assert("rcs_premium"@[0] == 'r');
    assert("rcs_premium"@[1] == 'c');
    assert("non_livre"@[0] == 'n');
    assert("en_transit"@[0] == 'e');
    assert("receptionne"@[0] == 'r');
    assert("receptionne"@[1] == 'e');
    assert("en_collecte"@[0] == 'e');
    assert("en_collecte"@[2] == '_');
    assert(key_index(table_key(20)) == 20);
    assert(key_index(table_key(21)) == 21);
    assert(key_index(table_key(22)) == 22);
    assert(key_index(table_key(23)) == 23);
    assert(key_index(table_key(24)) == 24);
    assert(key_index(table_key(25)) == 25);
    assert(key_index(table_key(26)) == 26);
    assert(key_index(table_key(27)) == 27);
    assert(key_index(table_key(28)) == 28);
    assert(key_index(table_key(29)) == 29);
    assert forall|i: int| 20 <= i < 30 implies #[trigger] key_index(table_key(i)) == i by {
        assert(20 <= i < 30);
    }
}

/// The keys at positions 30 to 39 have those positions.
#[verifier::rlimit(100)]
proof fn lemma_key_positions_30_39()
    ensures
        forall|i: int| 30 <= i < 40 ==> #[trigger] key_index(table_key(i)) == i,
{
    reveal_strlit("destinataire");
    reveal_strlit("adresse");
    reveal_strlit("telephone");
    reveal_strlit("codes_porte");
    reveal_strlit("acces_bal");
    reveal_strlit("indications_client");
    reveal_strlit("notes_chauffeur");
    reveal_strlit("enregistrer");
    reveal_strlit("annuler");
    reveal_strlit("modifier");
    reveal_strlit("non_renseigne");
    reveal_strlit("ajouter_note");
    reveal_strlit("nouvelle_adresse");
    reveal_strlit("code_de_porte");
    reveal_strlit("oui");
    reveal_strlit("non");
    reveal_strlit("parametres");
    reveal_strlit("langue");
    reveal_strlit("mode_edition");
    reveal_strlit("filtrer");
    reveal_strlit("codes_couleur");
    reveal_strlit("notifications_navigateur");
    reveal_strlit("deconnexion");
    reveal_strlit("relais");
    reveal_strlit("rcs_premium");
    reveal_strlit("livre");
    reveal_strlit("non_livre");
    reveal_strlit("en_transit");
    reveal_strlit("receptionne");
    reveal_strlit("en_collecte");
    reveal_strlit("route_optimizer");
    reveal_strlit("optimiser");
    reveal_strlit("scanner");
    reveal_strlit("rafraichir");
    reveal_strlit("aucun_colis");
    reveal_strlit("veuillez_rafraichir");
    reveal_strlit("traitees");
    reveal_strlit("livres");
    reveal_strlit("paquets");
    reveal_strlit("oui_capital");
    assert("destinataire"@.len() == 12);
    assert("adresse"@.len() == 7);
    assert("telephone"@.len() == 9);
    assert("codes_porte"@.len() == 11);
    assert("acces_bal"@.len() == 9);
    assert("indications_client"@.len() == 18);
    assert("notes_chauffeur"@.len() == 15);
    assert("enregistrer"@.len() == 11);
    assert("annuler"@.len() == 7);
    assert("modifier"@.len() == 8);
    assert("non_renseigne"@.len() == 13);
    assert("ajouter_note"@.len() == 12);
    assert("nouvelle_adresse"@.len() == 16);
    assert("code_de_porte"@.len() == 13);
    assert("oui"@.len() == 3);
    assert("non"@.len() == 3);
    assert("parametres"@.len() == 10);
    assert("langue"@.len() == 6);
    assert("mode_edition"@.len() == 12);
    assert("filtrer"@.len() == 7);
    assert("codes_couleur"@.len() == 13);
    assert("notifications_navigateur"@.len() == 24);
    assert("deconnexion"@.len() == 11);
    assert("relais"@.len() == 6);
    assert("rcs_premium"@.len() == 11);
    assert("livre"@.len() == 5);
    assert("non_livre"@.len() == 9);
    assert("en_transit"@.len() == 10);
    assert("receptionne"@.len() == 11);
    assert("en_collecte"@.len() == 11);
    assert("route_optimizer"@.len() == 15);
    assert("optimiser"@.len() == 9);
    assert("scanner"@.len() == 7);
    assert("rafraichir"@.len() == 10);
    assert("aucun_colis"@.len() == 11);
    assert("veuillez_rafraichir"@.len() == 19);
    assert("traitees"@.len() == 8);
    assert("livres"@.len() == 6);
    assert("paquets"@.len() == 7);
    assert("oui_capital"@.len() == 11);
    assert("adresse"@[0] == 'a');
    assert("telephone"@[0] == 't');
    assert("codes_porte"@[0] == 'c');
    assert("acces_bal"@[0] == 'a');
    assert("notes_chauffeur"@[0] == 'n');
    assert("enregistrer"@[0] == 'e');
    assert("annuler"@[0] == 'a');
    assert("modifier"@[0] == 'm');
    assert("parametres"@[0] == 'p');
    assert("langue"@[1] == 'a');
    assert("filtrer"@[0] == 'f');
    assert("deconnexion"@[0] == 'd');
    assert("relais"@[0] == 'r');
    assert("rcs_premium"@[0] == 'r');
    assert("non_livre"@[0] == 'n');
    assert("en_transit"@[0] == 'e');
    assert("receptionne"@[0] == 'r');
    assert("en_collecte"@[0] == 'e');
    assert("route_optimizer"@[0] == 'r');
    assert("optimiser"@[0] == 'o');
    assert("scanner"@[0] == 's');
    assert("rafraichir"@[0] == 'r');
    assert("aucun_colis"@[0] == 'a');
    assert("traitees"@[0] == 't');
    assert("livres"@[0] == 'l');
    assert("livres"@[1] == 'i');
    assert("paquets"@[0] == 'p');
    assert("oui_capital"@[0] == 'o');
    assert(key_index(table_key(30)) == 30);
    assert(key_index(table_key(31)) == 31);
    assert(key_index(table_key(32)) == 32);
    assert(key_index(table_key(33)) == 33);
    assert(key_index(table_key(34)) == 34);
    assert(key_index(table_key(35)) == 35);
    assert(key_index(table_key(36)) == 36);
    assert(key_index(table_key(37)) == 37);
    assert(key_index(table_key(38)) == 38);
    assert(key_index(table_key(39)) == 39);
    assert forall|i: int| 30 <= i < 40 implies #[trigger] key_index(table_key(i)) == i by {
        assert(30 <= i < 40);
    }
}

/// The keys at positions 40 to 49 have those positions.
#[verifier::rlimit(100)]
proof fn lemma_key_positions_40_49()
    ensures
        forall|i: int| 40 <= i < 50 ==> #[trigger] key_index(table_key(i)) == i,
{
    reveal_strlit("destinataire");
    reveal_strlit("adresse");
    reveal_strlit("telephone");
    reveal_strlit("codes_porte");
    reveal_strlit("acces_bal");
    reveal_strlit("indications_client");
    reveal_strlit("notes_chauffeur");
    reveal_strlit("enregistrer");
    reveal_strlit("annuler");
    reveal_strlit("modifier");
    reveal_strlit("non_renseigne");
    reveal_strlit("ajouter_note");
    reveal_strlit("nouvelle_adresse");
    reveal_strlit("code_de_porte");
    reveal_strlit("oui");
    reveal_strlit("non");
    reveal_strlit("parametres");
    reveal_strlit("langue");
    reveal_strlit("mode_edition");
    reveal_strlit("filtrer");
    reveal_strlit("codes_couleur");
    reveal_strlit("notifications_navigateur");
    reveal_strlit("deconnexion");
    reveal_strlit("relais");
    reveal_strlit("rcs_premium");
    reveal_strlit("livre");
    reveal_strlit("non_livre");
    reveal_strlit("en_transit");
    reveal_strlit("receptionne");
    reveal_strlit("en_collecte");
    reveal_strlit("route_optimizer");
    reveal_strlit("optimiser");
    reveal_strlit("scanner");
    reveal_strlit("rafraichir");
    reveal_strlit("aucun_colis");
    reveal_strlit("veuillez_rafraichir");
    reveal_strlit("traitees");
    reveal_strlit("livres");
    reveal_strlit("paquets");
    reveal_strlit("oui_capital");
    reveal_strlit("non_capital");
    reveal_strlit("marquer_problematique");
    reveal_strlit("problematique");
    reveal_strlit("traçabilité");
    reveal_strlit("rechercher_tracking");
    reveal_strlit("rechercher");
    reveal_strlit("saisir_tracking_rechercher");
    reveal_strlit("aucun_colis_trouve");
    reveal_strlit("erreur");
    reveal_strlit("admin_dashboard");
    assert("destinataire"@.len() == 12);
    assert("adresse"@.len() == 7);
    assert("telephone"@.len() == 9);
    assert("codes_porte"@.len() == 11);
    assert("acces_bal"@.len() == 9);
    assert("indications_client"@.len() == 18);
    assert("notes_chauffeur"@.len() == 15);
    assert("enregistrer"@.len() == 11);
    assert("annuler"@.len() == 7);
    assert("modifier"@.len() == 8);
    assert("non_renseigne"@.len() == 13);
    assert("ajouter_note"@.len() == 12);
    assert("nouvelle_adresse"@.len() == 16);
    assert("code_de_porte"@.len() == 13);
    assert("oui"@.len() == 3);
    assert("non"@.len() == 3);
    assert("parametres"@.len() == 10);
    assert("langue"@.len() == 6);
    assert("mode_edition"@.len() == 12);
    assert("filtrer"@.len() == 7);
    assert("codes_couleur"@.len() == 13);
    assert("notifications_navigateur"@.len() == 24);
    assert("deconnexion"@.len() == 11);
    assert("relais"@.len() == 6);
    assert("rcs_premium"@.len() == 11);
    assert("livre"@.len() == 5);
    assert("non_livre"@.len() == 9);
    assert("en_transit"@.len() == 10);
    assert("receptionne"@.len() == 11);
    assert("en_collecte"@.len() == 11);
    assert("route_optimizer"@.len() == 15);
    assert("optimiser"@.len() == 9);
    assert("scanner"@.len() == 7);
    assert("rafraichir"@.len() == 10);
    assert("aucun_colis"@.len() == 11);
    assert("veuillez_rafraichir"@.len() == 19);
    assert("traitees"@.len() == 8);
    assert("livres"@.len() == 6);
    assert("paquets"@.len() == 7);
    assert("oui_capital"@.len() == 11);
    assert("non_capital"@.len() == 11);
    assert("marquer_problematique"@.len() == 21);
    assert("problematique"@.len() == 13);
    assert("traçabilité"@.len() == 11);
    assert("rechercher_tracking"@.len() == 19);
    assert("rechercher"@.len() == 10);
    assert("saisir_tracking_rechercher"@.len() == 26);
    assert("aucun_colis_trouve"@.len() == 18);
    assert("erreur"@.len() == 6);
    assert("admin_dashboard"@.len() == 15);
    assert("codes_porte"@[0] == 'c');
    assert("indications_client"@[0] == 'i');
    assert("notes_chauffeur"@[0] == 'n');
    assert("enregistrer"@[0] == 'e');
    assert("non_renseigne"@[0] == 'n');
    assert("code_de_porte"@[0] == 'c');
    assert("parametres"@[0] == 'p');
    assert("langue"@[0] == 'l');
    assert("codes_couleur"@[0] == 'c');
    assert("deconnexion"@[0] == 'd');
    assert("relais"@[0] == 'r');
    assert("rcs_premium"@[0] == 'r');
    assert("en_transit"@[0] == 'e');
    assert("receptionne"@[0] == 'r');
    assert("en_collecte"@[0] == 'e');
    assert("route_optimizer"@[0] == 'r');
    assert("rafraichir"@[1] == 'a');
    assert("aucun_colis"@[0] == 'a');
    assert("veuillez_rafraichir"@[0] == 'v');
    assert("livres"@[0] == 'l');
    assert("oui_capital"@[0] == 'o');
    assert("non_capital"@[0] == 'n');
    assert("problematique"@[0] == 'p');
    assert("traçabilité"@[0] == 't');
    assert("rechercher_tracking"@[0] == 'r');
    assert("rechercher"@[0] == 'r');
    assert("rechercher"@[1] == 'e');
    assert("aucun_colis_trouve"@[0] == 'a');
    assert("erreur"@[0] == 'e');
    assert("admin_dashboard"@[0] == 'a');
    assert(key_index(table_key(40)) == 40);
    assert(key_index(table_key(41)) == 41);
    assert(key_index(table_key(42)) == 42);
    assert(key_index(table_key(43)) == 43);
    assert(key_index(table_key(44)) == 44);
    assert(key_index(table_key(45)) == 45);
    assert(key_index(table_key(46)) == 46);
    assert(key_index(table_key(47)) == 47);
    assert(key_index(table_key(48)) == 48);
    assert(key_index(table_key(49)) == 49);
    assert forall|i: int| 40 <= i < 50 implies #[trigger] key_index(table_key(i)) == i by {
        assert(40 <= i < 50);
    }
}

/// The keys at positions 50 to 59 have those positions.
#[verifier::rlimit(100)]
proof fn lemma_key_positions_50_59()
    ensures
        forall|i: int| 50 <= i < 60 ==> #[trigger] key_index(table_key(i)) == i,
{
    reveal_strlit("destinataire");
    reveal_strlit("adresse");
    reveal_strlit("telephone");
    reveal_strlit("codes_porte");
    reveal_strlit("acces_bal");
    reveal_strlit("indications_client");
    reveal_strlit("notes_chauffeur");
    reveal_strlit("enregistrer");
    reveal_strlit("annuler");
    reveal_strlit("modifier");
    reveal_strlit("non_renseigne");
    reveal_strlit("ajouter_note");
    reveal_strlit("nouvelle_adresse");
    reveal_strlit("code_de_porte");
    reveal_strlit("oui");
    reveal_strlit("non");
    reveal_strlit("parametres");
    reveal_strlit("langue");
    reveal_strlit("mode_edition");
    reveal_strlit("filtrer");
    reveal_strlit("codes_couleur");
    reveal_strlit("notifications_navigateur");
    reveal_strlit("deconnexion");
    reveal_strlit("relais");
    reveal_strlit("rcs_premium");
    reveal_strlit("livre");
    reveal_strlit("non_livre");
    reveal_strlit("en_transit");
    reveal_strlit("receptionne");
    reveal_strlit("en_collecte");
    reveal_strlit("route_optimizer");
    reveal_strlit("optimiser");
    reveal_strlit("scanner");
    reveal_strlit("rafraichir");
    reveal_strlit("aucun_colis");
    reveal_strlit("veuillez_rafraichir");
    reveal_strlit("traitees");
    reveal_strlit("livres");
    reveal_strlit("paquets");
    reveal_strlit("oui_capital");
    reveal_strlit("non_capital");
    reveal_strlit("marquer_problematique");
    reveal_strlit("problematique");
    reveal_strlit("traçabilité");
    reveal_strlit("rechercher_tracking");
    reveal_strlit("rechercher");
    reveal_strlit("saisir_tracking_rechercher");
    reveal_strlit("aucun_colis_trouve");
    reveal_strlit("erreur");
    reveal_strlit("admin_dashboard");
    reveal_strlit("buscar_tracking");
    reveal_strlit("demandes_en_attente");
    reveal_strlit("tableau_bord");
    reveal_strlit("chargement_paquets");
    reveal_strlit("demande");
    reveal_strlit("chargement");
    reveal_strlit("fermer");
    reveal_strlit("confirmer");
    reveal_strlit("demandes_changement_statut");
    reveal_strlit("apercu_excel");
    assert("destinataire"@.len() == 12);
    assert("adresse"@.len() == 7);
    assert("telephone"@.len() == 9);
    assert("codes_porte"@.len() == 11);
    assert("acces_bal"@.len() == 9);
    assert("indications_client"@.len() == 18);
    assert("notes_chauffeur"@.len() == 15);
    assert("enregistrer"@.len() == 11);
    assert("annuler"@.len() == 7);
    assert("modifier"@.len() == 8);
    assert("non_renseigne"@.len() == 13);
    assert("ajouter_note"@.len() == 12);
    assert("nouvelle_adresse"@.len() == 16);
    assert("code_de_porte"@.len() == 13);
    assert("oui"@.len() == 3);
    assert("non"@.len() == 3);
    assert("parametres"@.len() == 10);
    assert("langue"@.len() == 6);
    assert("mode_edition"@.len() == 12);
    assert("filtrer"@.len() == 7);
    assert("codes_couleur"@.len() == 13);
    assert("notifications_navigateur"@.len() == 24);
    assert("deconnexion"@.len() == 11);
    assert("relais"@.len() == 6);
    assert("rcs_premium"@.len() == 11);
    assert("livre"@.len() == 5);
    assert("non_livre"@.len() == 9);
    assert("en_transit"@.len() == 10);
    assert("receptionne"@.len() == 11);
    assert("en_collecte"@.len() == 11);
    assert("route_optimizer"@.len() == 15);
    assert("optimiser"@.len() == 9);
    assert("scanner"@.len() == 7);
    assert("rafraichir"@.len() == 10);
    assert("aucun_colis"@.len() == 11);
    assert("veuillez_rafraichir"@.len() == 19);
    assert("traitees"@.len() == 8);
    assert("livres"@.len() == 6);
    assert("paquets"@.len() == 7);
    assert("oui_capital"@.len() == 11);
    assert("non_capital"@.len() == 11);
    assert("marquer_problematique"@.len() == 21);
    assert("problematique"@.len() == 13);
    assert("traçabilité"@.len() == 11);
    assert("rechercher_tracking"@.len() == 19);
    assert("rechercher"@.len() == 10);
    assert("saisir_tracking_rechercher"@.len() == 26);
    assert("aucun_colis_trouve"@.len() == 18);
    assert("erreur"@.len() == 6);
    assert("admin_dashboard"@.len() == 15);
    assert("buscar_tracking"@.len() == 15);
    assert("demandes_en_attente"@.len() == 19);
    assert("tableau_bord"@.len() == 12);
    assert("chargement_paquets"@.len() == 18);
    assert("demande"@.len() == 7);
    assert("chargement"@.len() == 10);
    assert("fermer"@.len() == 6);
    assert("confirmer"@.len() == 9);
    assert("demandes_changement_statut"@.len() == 26);
    assert("apercu_excel"@.len() == 12);
    assert("destinataire"@[0] == 'd');
    assert("adresse"@[0] == 'a');
    assert("telephone"@[0] == 't');
    assert("acces_bal"@[0] == 'a');
    assert("indications_client"@[0] == 'i');
    assert("notes_chauffeur"@[0] == 'n');
    assert("annuler"@[0] == 'a');
    assert("ajouter_note"@[0] == 'a');
    assert("ajouter_note"@[1] == 'j');
    assert("parametres"@[0] == 'p');
    assert("langue"@[0] == 'l');
    assert("mode_edition"@[0] == 'm');
    assert("filtrer"@[0] == 'f');
    assert("relais"@[0] == 'r');
    assert("non_livre"@[0] == 'n');
    assert("en_transit"@[0] == 'e');
    assert("route_optimizer"@[0] == 'r');
    assert("optimiser"@[0] == 'o');
    assert("scanner"@[0] == 's');
    assert("rafraichir"@[0] == 'r');
    assert("veuillez_rafraichir"@[0] == 'v');
    assert("livres"@[0] == 'l');
    assert("paquets"@[0] == 'p');
    assert("rechercher_tracking"@[0] == 'r');
    assert("rechercher"@[0] == 'r');
    assert("saisir_tracking_rechercher"@[0] == 's');
    assert("aucun_colis_trouve"@[0] == 'a');
    assert("erreur"@[0] == 'e');
    assert("admin_dashboard"@[0] == 'a');
    assert("buscar_tracking"@[0] == 'b');
    assert("demandes_en_attente"@[0] == 'd');
    assert("tableau_bord"@[0] == 't');
    assert("chargement_paquets"@[0] == 'c');
    assert("demande"@[0] == 'd');
    assert("chargement"@[0] == 'c');
    assert("fermer"@[0] == 'f');
    assert("confirmer"@[0] == 'c');
    assert("demandes_changement_statut"@[0] == 'd');
    assert("apercu_excel"@[0] == 'a');
    assert("apercu_excel"@[1] == 'p');
    assert(key_index(table_key(50)) == 50);
    assert(key_index(table_key(51)) == 51);
    assert(key_index(table_key(52)) == 52);
    assert(key_index(table_key(53)) == 53);
    assert(key_index(table_key(54)) == 54);
    assert(key_index(table_key(55)) == 55);
    assert(key_index(table_key(56)) == 56);
    assert(key_index(table_key(57)) == 57);
    assert(key_index(table_key(58)) == 58);
    assert(key_index(table_key(59)) == 59);
    assert forall|i: int| 50 <= i < 60 implies #[trigger] key_index(table_key(i)) == i by {
        assert(50 <= i < 60);
    }
}

/// The keys at positions 60 to 69 have those positions.
#[verifier::rlimit(100)]
proof fn lemma_key_positions_60_69()
    ensures
        forall|i: int| 60 <= i < 70 ==> #[trigger] key_index(table_key(i)) == i,
{
    reveal_strlit("destinataire");
    reveal_strlit("adresse");
    reveal_strlit("telephone");
    reveal_strlit("codes_porte");
    reveal_strlit("acces_bal");
    reveal_strlit("indications_client");
    reveal_strlit("notes_chauffeur");
    reveal_strlit("enregistrer");
    reveal_strlit("annuler");
    reveal_strlit("modifier");
    reveal_strlit("non_renseigne");
    reveal_strlit("ajouter_note");
    reveal_strlit("nouvelle_adresse");
    reveal_strlit("code_de_porte");
    reveal_strlit("oui");
    reveal_strlit("non");
    reveal_strlit("parametres");
    reveal_strlit("langue");
    reveal_strlit("mode_edition");
    reveal_strlit("filtrer");
    reveal_strlit("codes_couleur");
    reveal_strlit("notifications_navigateur");
    reveal_strlit("deconnexion");
    reveal_strlit("relais");
    reveal_strlit("rcs_premium");
    reveal_strlit("livre");
    reveal_strlit("non_livre");
    reveal_strlit("en_transit");
    reveal_strlit("receptionne");
    reveal_strlit("en_collecte");
    reveal_strlit("route_optimizer");
    reveal_strlit("optimiser");
    reveal_strlit("scanner");
    reveal_strlit("rafraichir");
    reveal_strlit("aucun_colis");
    reveal_strlit("veuillez_rafraichir");
    reveal_strlit("traitees");
    reveal_strlit("livres");
    reveal_strlit("paquets");
    reveal_strlit("oui_capital");
    reveal_strlit("non_capital");
    reveal_strlit("marquer_problematique");
    reveal_strlit("problematique");
    reveal_strlit("traçabilité");
    reveal_strlit("rechercher_tracking");
    reveal_strlit("rechercher");
    reveal_strlit("saisir_tracking_rechercher");
    reveal_strlit("aucun_colis_trouve");
    reveal_strlit("erreur");
    reveal_strlit("admin_dashboard");
    reveal_strlit("buscar_tracking");
    reveal_strlit("demandes_en_attente");
    reveal_strlit("tableau_bord");
    reveal_strlit("chargement_paquets");
    reveal_strlit("demande");
    reveal_strlit("chargement");
    reveal_strlit("fermer");
    reveal_strlit("confirmer");
    reveal_strlit("demandes_changement_statut");
    reveal_strlit("apercu_excel");
    reveal_strlit("masquer_apercu");
    reveal_strlit("exporter_excel");
    reveal_strlit("fermer_le_jour");
    reveal_strlit("ref_colis");
    reveal_strlit("type_livraison");
    reveal_strlit("en_attente");
    reveal_strlit("cliquer_voir_historique_confirmer");
    reveal_strlit("voulez_fermer_jour");
    reveal_strlit("export_terminée_fermer");
    reveal_strlit("necessite_changement_statut");
    assert("destinataire"@.len() == 12);
    assert("adresse"@.len() == 7);
    assert("telephone"@.len() == 9);
    assert("codes_porte"@.len() == 11);
    assert("acces_bal"@.len() == 9);
    assert("indications_client"@.len() == 18);
    assert("notes_chauffeur"@.len() == 15);
    assert("enregistrer"@.len() == 11);
    assert("annuler"@.len() == 7);
    assert("modifier"@.len() == 8);
    assert("non_renseigne"@.len() == 13);
    assert("ajouter_note"@.len() == 12);
    assert("nouvelle_adresse"@.len() == 16);
    assert("code_de_porte"@.len() == 13);
    assert("oui"@.len() == 3);
    assert("non"@.len() == 3);
    assert("parametres"@.len() == 10);
    assert("langue"@.len() == 6);
    assert("mode_edition"@.len() == 12);
    assert("filtrer"@.len() == 7);
    assert("codes_couleur"@.len() == 13);
    assert("notifications_navigateur"@.len() == 24);
    assert("deconnexion"@.len() == 11);
    assert("relais"@.len() == 6);
    assert("rcs_premium"@.len() == 11);
    assert("livre"@.len() == 5);
    assert("non_livre"@.len() == 9);
    assert("en_transit"@.len() == 10);
    assert("receptionne"@.len() == 11);
    assert("en_collecte"@.len() == 11);
    assert("route_optimizer"@.len() == 15);
    assert("optimiser"@.len() == 9);
    assert("scanner"@.len() == 7);
    assert("rafraichir"@.len() == 10);
    assert("aucun_colis"@.len() == 11);
    assert("veuillez_rafraichir"@.len() == 19);
    assert("traitees"@.len() == 8);
    assert("livres"@.len() == 6);
    assert("paquets"@.len() == 7);
    assert("oui_capital"@.len() == 11);
    assert("non_capital"@.len() == 11);
    assert("marquer_problematique"@.len() == 21);
    assert("problematique"@.len() == 13);
    assert("traçabilité"@.len() == 11);
    assert("rechercher_tracking"@.len() == 19);
    assert("rechercher"@.len() == 10);
    assert("saisir_tracking_rechercher"@.len() == 26);
    assert("aucun_colis_trouve"@.len() == 18);
    assert("erreur"@.len() == 6);
    assert("admin_dashboard"@.len() == 15);
    assert("buscar_tracking"@.len() == 15);
    assert("demandes_en_attente"@.len() == 19);
    assert("tableau_bord"@.len() == 12);
    assert("chargement_paquets"@.len() == 18);
    assert("demande"@.len() == 7);
    assert("chargement"@.len() == 10);
    assert("fermer"@.len() == 6);
    assert("confirmer"@.len() == 9);
    assert("demandes_changement_statut"@.len() == 26);
    assert("apercu_excel"@.len() == 12);
    assert("masquer_apercu"@.len() == 14);
    assert("exporter_excel"@.len() == 14);
    assert("fermer_le_jour"@.len() == 14);
    assert("ref_colis"@.len() == 9);
    assert("type_livraison"@.len() == 14);
    assert("en_attente"@.len() == 10);
    assert("cliquer_voir_historique_confirmer"@.len() == 33);
    assert("voulez_fermer_jour"@.len() == 18);
    assert("export_terminée_fermer"@.len() == 22);
    assert("necessite_changement_statut"@.len() == 27);
    assert("telephone"@[0] == 't');
    assert("acces_bal"@[0] == 'a');
    assert("indications_client"@[0] == 'i');
    assert("parametres"@[0] == 'p');
    assert("non_livre"@[0] == 'n');
    assert("en_transit"@[3] == 't');
    assert("optimiser"@[0] == 'o');
    assert("rafraichir"@[0] == 'r');
    assert("rechercher"@[0] == 'r');
    assert("aucun_colis_trouve"@[0] == 'a');
    assert("chargement_paquets"@[0] == 'c');
    assert("chargement"@[0] == 'c');
    assert("confirmer"@[0] == 'c');
    assert("masquer_apercu"@[0] == 'm');
    assert("exporter_excel"@[0] == 'e');
    assert("fermer_le_jour"@[0] == 'f');
    assert("ref_colis"@[0] == 'r');
    assert("type_livraison"@[0] == 't');
    assert("en_attente"@[0] == 'e');
    assert("en_attente"@[3] == 'a');
    assert("voulez_fermer_jour"@[0] == 'v');
    assert(key_index(table_key(60)) == 60);
    assert(key_index(table_key(61)) == 61);
    assert(key_index(table_key(62)) == 62);
    assert(key_index(table_key(63)) == 63);
    assert(key_index(table_key(64)) == 64);
    assert(key_index(table_key(65)) == 65);
    assert(key_index(table_key(66)) == 66);
    assert(key_index(table_key(67)) == 67);
    assert(key_index(table_key(68)) == 68);
    assert(key_index(table_key(69)) == 69);
    assert forall|i: int| 60 <= i < 70 implies #[trigger] key_index(table_key(i)) == i by {
        assert(60 <= i < 70);
    }
}

/// The keys at positions 70 to 79 have those positions.
#[verifier::rlimit(100)]
proof fn lemma_key_positions_70_79()
    ensures
        forall|i: int| 70 <= i < 80 ==> #[trigger] key_index(table_key(i)) == i,
{
    reveal_strlit("destinataire");
    reveal_strlit("adresse");
    reveal_strlit("telephone");
    reveal_strlit("codes_porte");
    reveal_strlit("acces_bal");
    reveal_strlit("indications_client");
    reveal_strlit("notes_chauffeur");
    reveal_strlit("enregistrer");
    reveal_strlit("annuler");
    reveal_strlit("modifier");
    reveal_strlit("non_renseigne");
    reveal_strlit("ajouter_note");
    reveal_strlit("nouvelle_adresse");
    reveal_strlit("code_de_porte");
    reveal_strlit("oui");
    reveal_strlit("non");
    reveal_strlit("parametres");
    reveal_strlit("langue");
    reveal_strlit("mode_edition");
    reveal_strlit("filtrer");
    reveal_strlit("codes_couleur");
    reveal_strlit("notifications_navigateur");
    reveal_strlit("deconnexion");
    reveal_strlit("relais");
    reveal_strlit("rcs_premium");
    reveal_strlit("livre");
    reveal_strlit("non_livre");
    reveal_strlit("en_transit");
    reveal_strlit("receptionne");
    reveal_strlit("en_collecte");
    reveal_strlit("route_optimizer");
    reveal_strlit("optimiser");
    reveal_strlit("scanner");
    reveal_strlit("rafraichir");
    reveal_strlit("aucun_colis");
    reveal_strlit("veuillez_rafraichir");
    reveal_strlit("traitees");
    reveal_strlit("livres");
    reveal_strlit("paquets");
    reveal_strlit("oui_capital");
    reveal_strlit("non_capital");
    reveal_strlit("marquer_problematique");
    reveal_strlit("problematique");
    reveal_strlit("traçabilité");
    reveal_strlit("rechercher_tracking");
    reveal_strlit("rechercher");
    reveal_strlit("saisir_tracking_rechercher");
    reveal_strlit("aucun_colis_trouve");
    reveal_strlit("erreur");
    reveal_strlit("admin_dashboard");
    reveal_strlit("buscar_tracking");
    reveal_strlit("demandes_en_attente");
    reveal_strlit("tableau_bord");
    reveal_strlit("chargement_paquets");
    reveal_strlit("demande");
    reveal_strlit("chargement");
    reveal_strlit("fermer");
    reveal_strlit("confirmer");
    reveal_strlit("demandes_changement_statut");
    reveal_strlit("apercu_excel");
    reveal_strlit("masquer_apercu");
    reveal_strlit("exporter_excel");
    reveal_strlit("fermer_le_jour");
    reveal_strlit("ref_colis");
    reveal_strlit("type_livraison");
    reveal_strlit("en_attente");
    reveal_strlit("cliquer_voir_historique_confirmer");
    reveal_strlit("voulez_fermer_jour");
    reveal_strlit("export_terminée_fermer");
    reveal_strlit("necessite_changement_statut");
    reveal_strlit("type_livraison_label");
    reveal_strlit("choisir_type_livraison");
    reveal_strlit("tournees_colis_format");
    reveal_strlit("tournees");
    reveal_strlit("colis_livres_statut");
    reveal_strlit("signale_par");
    reveal_strlit("notes_label");
    reveal_strlit("tournee_word");
    reveal_strlit("paquets_tournee");
    reveal_strlit("optimisation_routes");
    assert("destinataire"@.len() == 12);
    assert("adresse"@.len() == 7);
    assert("telephone"@.len() == 9);
    assert("codes_porte"@.len() == 11);
    assert("acces_bal"@.len() == 9);
    assert("indications_client"@.len() == 18);
    assert("notes_chauffeur"@.len() == 15);
    assert("enregistrer"@.len() == 11);
    assert("annuler"@.len() == 7);
    assert("modifier"@.len() == 8);
    assert("non_renseigne"@.len() == 13);
    assert("ajouter_note"@.len() == 12);
    assert("nouvelle_adresse"@.len() == 16);
    assert("code_de_porte"@.len() == 13);
    assert("oui"@.len() == 3);
    assert("non"@.len() == 3);
    assert("parametres"@.len() == 10);
    assert("langue"@.len() == 6);
    assert("mode_edition"@.len() == 12);
    assert("filtrer"@.len() == 7);
    assert("codes_couleur"@.len() == 13);
    assert("notifications_navigateur"@.len() == 24);
    assert("deconnexion"@.len() == 11);
    assert("relais"@.len() == 6);
    assert("rcs_premium"@.len() == 11);
    assert("livre"@.len() == 5);
    assert("non_livre"@.len() == 9);
    assert("en_transit"@.len() == 10);
    assert("receptionne"@.len() == 11);
    assert("en_collecte"@.len() == 11);
    assert("route_optimizer"@.len() == 15);
    assert("optimiser"@.len() == 9);
    assert("scanner"@.len() == 7);
    assert("rafraichir"@.len() == 10);
    assert("aucun_colis"@.len() == 11);
    assert("veuillez_rafraichir"@.len() == 19);
    assert("traitees"@.len() == 8);
    assert("livres"@.len() == 6);
    assert("paquets"@.len() == 7);
    assert("oui_capital"@.len() == 11);
    assert("non_capital"@.len() == 11);
    assert("marquer_problematique"@.len() == 21);
    assert("problematique"@.len() == 13);
    assert("traçabilité"@.len() == 11);
    assert("rechercher_tracking"@.len() == 19);
    assert("rechercher"@.len() == 10);
    assert("saisir_tracking_rechercher"@.len() == 26);
    assert("aucun_colis_trouve"@.len() == 18);
    assert("erreur"@.len() == 6);
    assert("admin_dashboard"@.len() == 15);
    assert("buscar_tracking"@.len() == 15);
    assert("demandes_en_attente"@.len() == 19);
    assert("tableau_bord"@.len() == 12);
    assert("chargement_paquets"@.len() == 18);
    assert("demande"@.len() == 7);
    assert("chargement"@.len() == 10);
    assert("fermer"@.len() == 6);
    assert("confirmer"@.len() == 9);
    assert("demandes_changement_statut"@.len() == 26);
    assert("apercu_excel"@.len() == 12);
    assert("masquer_apercu"@.len() == 14);
    assert("exporter_excel"@.len() == 14);
    assert("fermer_le_jour"@.len() == 14);
    assert("ref_colis"@.len() == 9);
    assert("type_livraison"@.len() == 14);
    assert("en_attente"@.len() == 10);
    assert("cliquer_voir_historique_confirmer"@.len() == 33);
    assert("voulez_fermer_jour"@.len() == 18);
    assert("export_terminée_fermer"@.len() == 22);
    assert("necessite_changement_statut"@.len() == 27);
    assert("type_livraison_label"@.len() == 20);
    assert("choisir_type_livraison"@.len() == 22);
    assert("tournees_colis_format"@.len() == 21);
    assert("tournees"@.len() == 8);
    assert("colis_livres_statut"@.len() == 19);
    assert("signale_par"@.len() == 11);
    assert("notes_label"@.len() == 11);
    assert("tournee_word"@.len() == 12);
    assert("paquets_tournee"@.len() == 15);
    assert("optimisation_routes"@.len() == 19);
    assert("destinataire"@[0] == 'd');
    assert("codes_porte"@[0] == 'c');
    assert("notes_chauffeur"@[0] == 'n');
    assert("enregistrer"@[0] == 'e');
    assert("modifier"@[0] == 'm');
    assert("ajouter_note"@[0] == 'a');
    assert("mode_edition"@[0] == 'm');
    assert("deconnexion"@[0] == 'd');
    assert("rcs_premium"@[0] == 'r');
    assert("receptionne"@[0] == 'r');
    assert("en_collecte"@[0] == 'e');
    assert("route_optimizer"@[0] == 'r');
    assert("aucun_colis"@[0] == 'a');
    assert("veuillez_rafraichir"@[0] == 'v');
    assert("traitees"@[1] == 'r');
    assert("oui_capital"@[0] == 'o');
    assert("non_capital"@[0] == 'n');
    assert("non_capital"@[2] == 'n');
    assert("marquer_problematique"@[0] == 'm');
    assert("traçabilité"@[0] == 't');
    assert("rechercher_tracking"@[0] == 'r');
    assert("admin_dashboard"@[0] == 'a');
    assert("buscar_tracking"@[0] == 'b');
    assert("demandes_en_attente"@[0] == 'd');
    assert("tableau_bord"@[1] == 'a');
    assert("apercu_excel"@[0] == 'a');
    assert("export_terminée_fermer"@[0] == 'e');
    assert("choisir_type_livraison"@[0] == 'c');
    assert("tournees_colis_format"@[0] == 't');
    assert("tournees"@[0] == 't');
    assert("tournees"@[1] == 'o');
    assert("colis_livres_statut"@[0] == 'c');
    assert("signale_par"@[0] == 's');
    assert("notes_label"@[0] == 'n');
    assert("notes_label"@[2] == 't');
    assert("tournee_word"@[0] == 't');
    assert("tournee_word"@[1] == 'o');
    assert("paquets_tournee"@[0] == 'p');
    assert("optimisation_routes"@[0] == 'o');
    assert(key_index(table_key(70)) == 70);
    assert(key_index(table_key(71)) == 71);
    assert(key_index(table_key(72)) == 72);
    assert(key_index(table_key(73)) == 73);
    assert(key_index(table_key(74)) == 74);
    assert(key_index(table_key(75)) == 75);
    assert(key_index(table_key(76)) == 76);
    assert(key_index(table_key(77)) == 77);
    assert(key_index(table_key(78)) == 78);
    assert(key_index(table_key(79)) == 79);
    assert forall|i: int| 70 <= i < 80 implies #[trigger] key_index(table_key(i)) == i by {
        assert(70 <= i < 80);
    }
}

/// The keys at positions 80 to 89 have those positions.
#[verifier::rlimit(100)]
proof fn lemma_key_positions_80_89()
    ensures
        forall|i: int| 80 <= i < 90 ==> #[trigger] key_index(table_key(i)) == i,
{
    reveal_strlit("destinataire");
    reveal_strlit("adresse");
    reveal_strlit("telephone");
    reveal_strlit("codes_porte");
    reveal_strlit("acces_bal");
    reveal_strlit("indications_client");
    reveal_strlit("notes_chauffeur");
    reveal_strlit("enregistrer");
    reveal_strlit("annuler");
    reveal_strlit("modifier");
    reveal_strlit("non_renseigne");
    reveal_strlit("ajouter_note");
    reveal_strlit("nouvelle_adresse");
    reveal_strlit("code_de_porte");
    reveal_strlit("oui");
    reveal_strlit("non");
    reveal_strlit("parametres");
    reveal_strlit("langue");
    reveal_strlit("mode_edition");
    reveal_strlit("filtrer");
    reveal_strlit("codes_couleur");
    reveal_strlit("notifications_navigateur");
    reveal_strlit("deconnexion");
    reveal_strlit("relais");
    reveal_strlit("rcs_premium");
    reveal_strlit("livre");
    reveal_strlit("non_livre");
    reveal_strlit("en_transit");
    reveal_strlit("receptionne");
    reveal_strlit("en_collecte");
    reveal_strlit("route_optimizer");
    reveal_strlit("optimiser");
    reveal_strlit("scanner");
    reveal_strlit("rafraichir");
    reveal_strlit("aucun_colis");
    reveal_strlit("veuillez_rafraichir");
    reveal_strlit("traitees");
    reveal_strlit("livres");
    reveal_strlit("paquets");
    reveal_strlit("oui_capital");
    reveal_strlit("non_capital");
    reveal_strlit("marquer_problematique");
    reveal_strlit("problematique");
    reveal_strlit("traçabilité");
    reveal_strlit("rechercher_tracking");
    reveal_strlit("rechercher");
    reveal_strlit("saisir_tracking_rechercher");
    reveal_strlit("aucun_colis_trouve");
    reveal_strlit("erreur");
    reveal_strlit("admin_dashboard");
    reveal_strlit("buscar_tracking");
    reveal_strlit("demandes_en_attente");
    reveal_strlit("tableau_bord");
    reveal_strlit("chargement_paquets");
    reveal_strlit("demande");
    reveal_strlit("chargement");
    reveal_strlit("fermer");
    reveal_strlit("confirmer");
    reveal_strlit("demandes_changement_statut");
    reveal_strlit("apercu_excel");
    reveal_strlit("masquer_apercu");
    reveal_strlit("exporter_excel");
    reveal_strlit("fermer_le_jour");
    reveal_strlit("ref_colis");
    reveal_strlit("type_livraison");
    reveal_strlit("en_attente");
    reveal_strlit("cliquer_voir_historique_confirmer");
    reveal_strlit("voulez_fermer_jour");
    reveal_strlit("export_terminée_fermer");
    reveal_strlit("necessite_changement_statut");
    reveal_strlit("type_livraison_label");
    reveal_strlit("choisir_type_livraison");
    reveal_strlit("tournees_colis_format");
    reveal_strlit("tournees");
    reveal_strlit("colis_livres_statut");
    reveal_strlit("signale_par");
    reveal_strlit("notes_label");
    reveal_strlit("tournee_word");
    reveal_strlit("paquets_tournee");
    reveal_strlit("optimisation_routes");
    reveal_strlit("type_utilisateur");
    reveal_strlit("chauffeur");
    reveal_strlit("admin");
    reveal_strlit("connexion");
    reveal_strlit("utilisateur");
    reveal_strlit("utilisateur_placeholder");
    reveal_strlit("mot_de_passe");
    reveal_strlit("mot_de_passe_placeholder");
    reveal_strlit("entreprise");
    reveal_strlit("selectionner_entreprise");
    assert("destinataire"@.len() == 12);
    assert("adresse"@.len() == 7);
    assert("telephone"@.len() == 9);
    assert("codes_porte"@.len() == 11);
    assert("acces_bal"@.len() == 9);
    assert("indications_client"@.len() == 18);
    assert("notes_chauffeur"@.len() == 15);
    assert("enregistrer"@.len() == 11);
    assert("annuler"@.len() == 7);
    assert("modifier"@.len() == 8);
    assert("non_renseigne"@.len() == 13);
    assert("ajouter_note"@.len() == 12);
    assert("nouvelle_adresse"@.len() == 16);
    assert("code_de_porte"@.len() == 13);
    assert("oui"@.len() == 3);
    assert("non"@.len() == 3);
    assert("parametres"@.len() == 10);
    assert("langue"@.len() == 6);
    assert("mode_edition"@.len() == 12);
    assert("filtrer"@.len() == 7);
    assert("codes_couleur"@.len() == 13);
    assert("notifications_navigateur"@.len() == 24);
    assert("deconnexion"@.len() == 11);
    assert("relais"@.len() == 6);
    assert("rcs_premium"@.len() == 11);
    assert("livre"@.len() == 5);
    assert("non_livre"@.len() == 9);
    assert("en_transit"@.len() == 10);
    assert("receptionne"@.len() == 11);
    assert("en_collecte"@.len() == 11);
    assert("route_optimizer"@.len() == 15);
    assert("optimiser"@.len() == 9);
    assert("scanner"@.len() == 7);
    assert("rafraichir"@.len() == 10);
    assert("aucun_colis"@.len() == 11);
    assert("veuillez_rafraichir"@.len() == 19);
    assert("traitees"@.len() == 8);
    assert("livres"@.len() == 6);
    assert("paquets"@.len() == 7);
    assert("oui_capital"@.len() == 11);
    assert("non_capital"@.len() == 11);
    assert("marquer_problematique"@.len() == 21);
    assert("problematique"@.len() == 13);
    assert("traçabilité"@.len() == 11);
    assert("rechercher_tracking"@.len() == 19);
    assert("rechercher"@.len() == 10);
    assert("saisir_tracking_rechercher"@.len() == 26);
    assert("aucun_colis_trouve"@.len() == 18);
    assert("erreur"@.len() == 6);
    assert("admin_dashboard"@.len() == 15);
    assert("buscar_tracking"@.len() == 15);
    assert("demandes_en_attente"@.len() == 19);
    assert("tableau_bord"@.len() == 12);
    assert("chargement_paquets"@.len() == 18);
    assert("demande"@.len() == 7);
    assert("chargement"@.len() == 10);
    assert("fermer"@.len() == 6);
    assert("confirmer"@.len() == 9);
    assert("demandes_changement_statut"@.len() == 26);
    assert("apercu_excel"@.len() == 12);
    assert("masquer_apercu"@.len() == 14);
    assert("exporter_excel"@.len() == 14);
    assert("fermer_le_jour"@.len() == 14);
    assert("ref_colis"@.len() == 9);
    assert("type_livraison"@.len() == 14);
    assert("en_attente"@.len() == 10);
    assert("cliquer_voir_historique_confirmer"@.len() == 33);
    assert("voulez_fermer_jour"@.len() == 18);
    assert("export_terminée_fermer"@.len() == 22);
    assert("necessite_changement_statut"@.len() == 27);
    assert("type_livraison_label"@.len() == 20);
    assert("choisir_type_livraison"@.len() == 22);
    assert("tournees_colis_format"@.len() == 21);
    assert("tournees"@.len() == 8);
    assert("colis_livres_statut"@.len() == 19);
    assert("signale_par"@.len() == 11);
    assert("notes_label"@.len() == 11);
    assert("tournee_word"@.len() == 12);
    assert("paquets_tournee"@.len() == 15);
    assert("optimisation_routes"@.len() == 19);
    assert("type_utilisateur"@.len() == 16);
    assert("chauffeur"@.len() == 9);
    assert("admin"@.len() == 5);
    assert("connexion"@.len() == 9);
    assert("utilisateur"@.len() == 11);
    assert("utilisateur_placeholder"@.len() == 23);
    assert("mot_de_passe"@.len() == 12);
    assert("mot_de_passe_placeholder"@.len() == 24);
    assert("entreprise"@.len() == 10);
    assert("selectionner_entreprise"@.len() == 23);
    assert("destinataire"@[0] == 'd');
    assert("telephone"@[0] == 't');
    assert("codes_porte"@[0] == 'c');
    assert("acces_bal"@[0] == 'a');
    assert("enregistrer"@[0] == 'e');
    assert("ajouter_note"@[0] == 'a');
    assert("nouvelle_adresse"@[0] == 'n');
    assert("parametres"@[0] == 'p');
    assert("mode_edition"@[2] == 'd');
    assert("notifications_navigateur"@[0] == 'n');
    assert("deconnexion"@[0] == 'd');
    assert("rcs_premium"@[0] == 'r');
    assert("livre"@[0] == 'l');
    assert("non_livre"@[0] == 'n');
    assert("en_transit"@[2] == '_');
    assert("receptionne"@[0] == 'r');
    assert("en_collecte"@[0] == 'e');
    assert("optimiser"@[0] == 'o');
    assert("rafraichir"@[0] == 'r');
    assert("aucun_colis"@[0] == 'a');
    assert("oui_capital"@[0] == 'o');
    assert("non_capital"@[0] == 'n');
    assert("traçabilité"@[0] == 't');
    assert("rechercher"@[0] == 'r');
    assert("tableau_bord"@[0] == 't');
    assert("chargement"@[0] == 'c');
    assert("confirmer"@[1] == 'o');
    assert("confirmer"@[3] == 'f');
    assert("apercu_excel"@[0] == 'a');
    assert("ref_colis"@[0] == 'r');
    assert("en_attente"@[2] == '_');
    assert("signale_par"@[0] == 's');
    assert("notes_label"@[0] == 'n');
    assert("tournee_word"@[0] == 't');
    assert("type_utilisateur"@[0] == 't');
    assert("chauffeur"@[0] == 'c');
    assert("chauffeur"@[1] == 'h');
    assert("admin"@[0] == 'a');
    assert("connexion"@[0] == 'c');
    assert("connexion"@[1] == 'o');
    assert("connexion"@[3] == 'n');
    assert("utilisateur"@[0] == 'u');
    assert("utilisateur_placeholder"@[0] == 'u');
    assert("mot_de_passe"@[0] == 'm');
    assert("mot_de_passe"@[2] == 't');
    assert("mot_de_passe_placeholder"@[0] == 'm');
    assert("entreprise"@[0] == 'e');
    assert("entreprise"@[2] == 't');
    assert("selectionner_entreprise"@[0] == 's');
    assert(key_index(table_key(80)) == 80);
    assert(key_index(table_key(81)) == 81);
    assert(key_index(table_key(82)) == 82);
    assert(key_index(table_key(83)) == 83);
    assert(key_index(table_key(84)) == 84);
    assert(key_index(table_key(85)) == 85);
    assert(key_index(table_key(86)) == 86);
    assert(key_index(table_key(87)) == 87);
    assert(key_index(table_key(88)) == 88);
    assert(key_index(table_key(89)) == 89);
    assert forall|i: int| 80 <= i < 90 implies #[trigger] key_index(table_key(i)) == i by {
        assert(80 <= i < 90);
    }
}

/// The keys at positions 90 to 98 have those positions.
#[verifier::rlimit(100)]
proof fn lemma_key_positions_90_98()
    ensures
        forall|i: int| 90 <= i < 99 ==> #[trigger] key_index(table_key(i)) == i,
{
    reveal_strlit("destinataire");
    reveal_strlit("adresse");
    reveal_strlit("telephone");
    reveal_strlit("codes_porte");
    reveal_strlit("acces_bal");
    reveal_strlit("indications_client");
    reveal_strlit("notes_chauffeur");
    reveal_strlit("enregistrer");
    reveal_strlit("annuler");
    reveal_strlit("modifier");
    reveal_strlit("non_renseigne");
    reveal_strlit("ajouter_note");
    reveal_strlit("nouvelle_adresse");
    reveal_strlit("code_de_porte");
    reveal_strlit("oui");
    reveal_strlit("non");
    reveal_strlit("parametres");
    reveal_strlit("langue");
    reveal_strlit("mode_edition");
    reveal_strlit("filtrer");
    reveal_strlit("codes_couleur");
    reveal_strlit("notifications_navigateur");
    reveal_strlit("deconnexion");
    reveal_strlit("relais");
    reveal_strlit("rcs_premium");
    reveal_strlit("livre");
    reveal_strlit("non_livre");
    reveal_strlit("en_transit");
    reveal_strlit("receptionne");
    reveal_strlit("en_collecte");
    reveal_strlit("route_optimizer");
    reveal_strlit("optimiser");
    reveal_strlit("scanner");
    reveal_strlit("rafraichir");
    reveal_strlit("aucun_colis");
    reveal_strlit("veuillez_rafraichir");
    reveal_strlit("traitees");
    reveal_strlit("livres");
    reveal_strlit("paquets");
    reveal_strlit("oui_capital");
    reveal_strlit("non_capital");
    reveal_strlit("marquer_problematique");
    reveal_strlit("problematique");
    reveal_strlit("traçabilité");
    reveal_strlit("rechercher_tracking");
    reveal_strlit("rechercher");
    reveal_strlit("saisir_tracking_rechercher");
    reveal_strlit("aucun_colis_trouve");
    reveal_strlit("erreur");
    reveal_strlit("admin_dashboard");
    reveal_strlit("buscar_tracking");
    reveal_strlit("demandes_en_attente");
    reveal_strlit("tableau_bord");
    reveal_strlit("chargement_paquets");
    reveal_strlit("demande");
    reveal_strlit("chargement");
    reveal_strlit("fermer");
    reveal_strlit("confirmer");
    reveal_strlit("demandes_changement_statut");
    reveal_strlit("apercu_excel");
    reveal_strlit("masquer_apercu");
    reveal_strlit("exporter_excel");
    reveal_strlit("fermer_le_jour");
    reveal_strlit("ref_colis");
    reveal_strlit("type_livraison");
    reveal_strlit("en_attente");
    reveal_strlit("cliquer_voir_historique_confirmer");
    reveal_strlit("voulez_fermer_jour");
    reveal_strlit("export_terminée_fermer");
    reveal_strlit("necessite_changement_statut");
    reveal_strlit("type_livraison_label");
    reveal_strlit("choisir_type_livraison");
    reveal_strlit("tournees_colis_format");
    reveal_strlit("tournees");
    reveal_strlit("colis_livres_statut");
    reveal_strlit("signale_par");
    reveal_strlit("notes_label");
    reveal_strlit("tournee_word");
    reveal_strlit("paquets_tournee");
    reveal_strlit("optimisation_routes");
    reveal_strlit("type_utilisateur");
    reveal_strlit("chauffeur");
    reveal_strlit("admin");
    reveal_strlit("connexion");
    reveal_strlit("utilisateur");
    reveal_strlit("utilisateur_placeholder");
    reveal_strlit("mot_de_passe");
    reveal_strlit("mot_de_passe_placeholder");
    reveal_strlit("entreprise");
    reveal_strlit("selectionner_entreprise");
    reveal_strlit("buscar_empresa");
    reveal_strlit("veuillez_remplir_champs");
    reveal_strlit("chargement_entreprises");
    reveal_strlit("aucune_entreprise");
    reveal_strlit("buscar_tracking_title");
    reveal_strlit("buscar_tracking_placeholder");
    reveal_strlit("aucun_tracking");
    reveal_strlit("scanner_title");
    reveal_strlit("cargando_sesion");
    assert("destinataire"@.len() == 12);
    assert("adresse"@.len() == 7);
    assert("telephone"@.len() == 9);
    assert("codes_porte"@.len() == 11);
    assert("acces_bal"@.len() == 9);
    assert("indications_client"@.len() == 18);
    assert("notes_chauffeur"@.len() == 15);
    assert("enregistrer"@.len() == 11);
    assert("annuler"@.len() == 7);
    assert("modifier"@.len() == 8);
    assert("non_renseigne"@.len() == 13);
    assert("ajouter_note"@.len() == 12);
    assert("nouvelle_adresse"@.len() == 16);
    assert("code_de_porte"@.len() == 13);
    assert("oui"@.len() == 3);
    assert("non"@.len() == 3);
    assert("parametres"@.len() == 10);
    assert("langue"@.len() == 6);
    assert("mode_edition"@.len() == 12);
    assert("filtrer"@.len() == 7);
    assert("codes_couleur"@.len() == 13);
    assert("notifications_navigateur"@.len() == 24);
    assert("deconnexion"@.len() == 11);
    assert("relais"@.len() == 6);
    assert("rcs_premium"@.len() == 11);
    assert("livre"@.len() == 5);
    assert("non_livre"@.len() == 9);
    assert("en_transit"@.len() == 10);
    assert("receptionne"@.len() == 11);
    assert("en_collecte"@.len() == 11);
    assert("route_optimizer"@.len() == 15);
    assert("optimiser"@.len() == 9);
    assert("scanner"@.len() == 7);
    assert("rafraichir"@.len() == 10);
    assert("aucun_colis"@.len() == 11);
    assert("veuillez_rafraichir"@.len() == 19);
    assert("traitees"@.len() == 8);
    assert("livres"@.len() == 6);
    assert("paquets"@.len() == 7);
    assert("oui_capital"@.len() == 11);
    assert("non_capital"@.len() == 11);
    assert("marquer_problematique"@.len() == 21);
    assert("problematique"@.len() == 13);
    assert("traçabilité"@.len() == 11);
    assert("rechercher_tracking"@.len() == 19);
    assert("rechercher"@.len() == 10);
    assert("saisir_tracking_rechercher"@.len() == 26);
    assert("aucun_colis_trouve"@.len() == 18);
    assert("erreur"@.len() == 6);
    assert("admin_dashboard"@.len() == 15);
    assert("buscar_tracking"@.len() == 15);
    assert("demandes_en_attente"@.len() == 19);
    assert("tableau_bord"@.len() == 12);
    assert("chargement_paquets"@.len() == 18);
    assert("demande"@.len() == 7);
    assert("chargement"@.len() == 10);
    assert("fermer"@.len() == 6);
    assert("confirmer"@.len() == 9);
    assert("demandes_changement_statut"@.len() == 26);
    assert("apercu_excel"@.len() == 12);
    assert("masquer_apercu"@.len() == 14);
    assert("exporter_excel"@.len() == 14);
    assert("fermer_le_jour"@.len() == 14);
    assert("ref_colis"@.len() == 9);
    assert("type_livraison"@.len() == 14);
    assert("en_attente"@.len() == 10);
    assert("cliquer_voir_historique_confirmer"@.len() == 33);
    assert("voulez_fermer_jour"@.len() == 18);
    assert("export_terminée_fermer"@.len() == 22);
    assert("necessite_changement_statut"@.len() == 27);
    assert("type_livraison_label"@.len() == 20);
    assert("choisir_type_livraison"@.len() == 22);
    assert("tournees_colis_format"@.len() == 21);
    assert("tournees"@.len() == 8);
    assert("colis_livres_statut"@.len() == 19);
    assert("signale_par"@.len() == 11);
    assert("notes_label"@.len() == 11);
    assert("tournee_word"@.len() == 12);
    assert("paquets_tournee"@.len() == 15);
    assert("optimisation_routes"@.len() == 19);
    assert("type_utilisateur"@.len() == 16);
    assert("chauffeur"@.len() == 9);
    assert("admin"@.len() == 5);
    assert("connexion"@.len() == 9);
    assert("utilisateur"@.len() == 11);
    assert("utilisateur_placeholder"@.len() == 23);
    assert("mot_de_passe"@.len() == 12);
    assert("mot_de_passe_placeholder"@.len() == 24);
    assert("entreprise"@.len() == 10);
    assert("selectionner_entreprise"@.len() == 23);
    assert("buscar_empresa"@.len() == 14);
    assert("veuillez_remplir_champs"@.len() == 23);
    assert("chargement_entreprises"@.len() == 22);
    assert("aucune_entreprise"@.len() == 17);
    assert("buscar_tracking_title"@.len() == 21);
    assert("buscar_tracking_placeholder"@.len() == 27);
    assert("aucun_tracking"@.len() == 14);
    assert("scanner_title"@.len() == 13);
    assert("cargando_sesion"@.len() == 15);
    assert("notes_chauffeur"@[0] == 'n');
    assert("non_renseigne"@[0] == 'n');
    assert("code_de_porte"@[0] == 'c');
    assert("codes_couleur"@[0] == 'c');
    assert("route_optimizer"@[0] == 'r');
    assert("marquer_problematique"@[0] == 'm');
    assert("problematique"@[0] == 'p');
    assert("admin_dashboard"@[0] == 'a');
    assert("buscar_tracking"@[0] == 'b');
    assert("masquer_apercu"@[0] == 'm');
    assert("exporter_excel"@[0] == 'e');
    assert("fermer_le_jour"@[0] == 'f');
    assert("type_livraison"@[0] == 't');
    assert("export_terminée_fermer"@[0] == 'e');
    assert("necessite_changement_statut"@[0] == 'n');
    assert("choisir_type_livraison"@[2] == 'o');
    assert("tournees_colis_format"@[0] == 't');
    assert("paquets_tournee"@[0] == 'p');
    assert("utilisateur_placeholder"@[0] == 'u');
    assert("selectionner_entreprise"@[0] == 's');
    assert("buscar_empresa"@[0] == 'b');
    assert("veuillez_remplir_champs"@[0] == 'v');
    assert("chargement_entreprises"@[0] == 'c');
    assert("chargement_entreprises"@[2] == 'a');
    assert("buscar_tracking_title"@[0] == 'b');
    assert("buscar_tracking_placeholder"@[0] == 'b');
    assert("aucun_tracking"@[0] == 'a');
    assert("scanner_title"@[0] == 's');
    assert("cargando_sesion"@[0] == 'c');
    assert(key_index(table_key(90)) == 90);
    assert(key_index(table_key(91)) == 91);
    assert(key_index(table_key(92)) == 92);
    assert(key_index(table_key(93)) == 93);
    assert(key_index(table_key(94)) == 94);
    assert(key_index(table_key(95)) == 95);
    assert(key_index(table_key(96)) == 96);
    assert(key_index(table_key(97)) == 97);
    assert(key_index(table_key(98)) == 98);
    assert forall|i: int| 90 <= i < 99 implies #[trigger] key_index(table_key(i)) == i by {
        assert(90 <= i < 99);
    }
}

/// Each key has its own position: no key is listed twice.
proof fn lemma_key_positions()
    ensures
        forall|i: int| 0 <= i < 99 ==> #[trigger] key_index(table_key(i)) == i,
{
    lemma_key_positions_0_9();
    lemma_key_positions_10_19();
    lemma_key_positions_20_29();
    lemma_key_positions_30_39();
    lemma_key_positions_40_49();
    lemma_key_positions_50_59();
    lemma_key_positions_60_69();
    lemma_key_positions_70_79();
    lemma_key_positions_80_89();
    lemma_key_positions_90_98();
}

/// The keys of the Spanish table are exactly the 99 listed ones.
proof fn lemma_es_keys(k: Seq<char>)
    ensures
        es_text(k) is Some <==> 0 <= key_index(k) < 99,
        es_text(k) is Some ==> table_key(key_index(k)) == k,
{
}

/// The Spanish text of each key of the tables.
#[verifier::rlimit(100)]
pub proof fn law_spanish_texts()
    ensures
        es_text("destinataire"@) == Some("Destinatario"@),
        es_text("adresse"@) == Some("Dirección"@),
        es_text("telephone"@) == Some("Teléfono"@),
        es_text("codes_porte"@) == Some("Códigos de puerta"@),
        es_text("acces_bal"@) == Some("Acceso BAL"@),
        es_text("indications_client"@) == Some("Indicaciones cliente"@),
        es_text("notes_chauffeur"@) == Some("Notas chofer"@),
        es_text("enregistrer"@) == Some("Guardar"@),
        es_text("annuler"@) == Some("Cancelar"@),
        es_text("modifier"@) == Some("Modificar"@),
        es_text("non_renseigne"@) == Some("No especificado"@),
        es_text("ajouter_note"@) == Some("Agregar una nota"@),
        es_text("nouvelle_adresse"@) == Some("Nueva dirección"@),
        es_text("code_de_porte"@) == Some("Código de puerta"@),
        es_text("oui"@) == Some("Sí"@),
        es_text("non"@) == Some("No"@),
        es_text("parametres"@) == Some("Parámetros"@),
        es_text("langue"@) == Some("Idioma"@),
        es_text("mode_edition"@) == Some("Modo edición"@),
        es_text("filtrer"@) == Some("Filtrar"@),
        es_text("codes_couleur"@) == Some("🎨 Códigos color"@),
        es_text("notifications_navigateur"@) == Some("Notificaciones del navegador"@),
        es_text("deconnexion"@) == Some("⎋ Desconexión"@),
        es_text("relais"@) == Some("RELAIS"@),
        es_text("rcs_premium"@) == Some("RCS (Premium)"@),
        es_text("livre"@) == Some("Entregado"@),
        es_text("non_livre"@) == Some("No entregado"@),
        es_text("en_transit"@) == Some("En tránsito"@),
        es_text("receptionne"@) == Some("Recibido"@),
        es_text("en_collecte"@) == Some("En recogida"@),
        es_text("route_optimizer"@) == Some("Route Optimizer"@),
        es_text("optimiser"@) == Some("Optimizar"@),
        es_text("scanner"@) == Some("Escanear"@),
        es_text("rafraichir"@) == Some("Refrescar"@),
        es_text("aucun_colis"@) == Some("No hay paquetes en la sesión"@),
        es_text("veuillez_rafraichir"@) == Some("Por favor refrescar o recargar la ronda"@),
        es_text("traitees"@) == Some("tratadas"@),
        es_text("livres"@) == Some("entregados"@),
        es_text("paquets"@) == Some("paquetes"@),
        es_text("oui_capital"@) == Some("Sí"@),
        es_text("non_capital"@) == Some("No"@),
        es_text("marquer_problematique"@) == Some("Marcar como problemático"@),
        es_text("problematique"@) == Some("Problemático"@),
        es_text("traçabilité"@) == Some("Trazabilidad"@),
        es_text("rechercher_tracking"@) == Some("Buscar tracking"@),
        es_text("rechercher"@) == Some("Buscar"@),
        es_text("saisir_tracking_rechercher"@) == Some("Introducir tracking y clicar en Buscar"@),
        es_text("aucun_colis_trouve"@) == Some("No se encontraron paquetes"@),
        es_text("erreur"@) == Some("Error"@),
        es_text("admin_dashboard"@) == Some("Panel Admin"@),
        es_text("buscar_tracking"@) == Some("Buscar tracking"@),
        es_text("demandes_en_attente"@) == Some("solicitudes pendientes"@),
        es_text("tableau_bord"@) == Some("Panel de control"@),
        es_text("chargement_paquets"@) == Some("Cargando paquetes..."@),
        es_text("demande"@) == Some("Solicitud"@),
        es_text("chargement"@) == Some("Cargando..."@),
        es_text("fermer"@) == Some("Cerrar"@),
        es_text("confirmer"@) == Some("Confirmar"@),
        es_text("demandes_changement_statut"@) == Some("Solicitudes de cambio de estado"@),
        es_text("apercu_excel"@) == Some("Vista previa Excel"@),
        es_text("masquer_apercu"@) == Some("Ocultar vista previa"@),
        es_text("exporter_excel"@) == Some("Exportar Excel"@),
        es_text("fermer_le_jour"@) == Some("Cerrar el día"@),
        es_text("ref_colis"@) == Some("REF COLIS (en mayúscula)"@),
        es_text("type_livraison"@) == Some("TIPO DE ENTREGA"@),
        es_text("en_attente"@) == Some("En espera"@),
        es_text("cliquer_voir_historique_confirmer"@) == Some("Clic para ver historial y confirmar"@),
        es_text("voulez_fermer_jour"@) == Some("¿Desea cerrar el día? Las solicitudes confirmadas pasarán a resueltas. Las sesiones de tournées también se eliminarán."@),
        es_text("export_terminée_fermer"@) == Some("Exportación terminada. ¿Desea cerrar el día y vaciar la vista previa? Las sesiones de tournées también se eliminarán."@),
        es_text("necessite_changement_statut"@) == Some("Requiere cambio de estado"@),
        es_text("type_livraison_label"@) == Some("Tipo de entrega"@),
        es_text("choisir_type_livraison"@) == Some("Elija el tipo de entrega para el Excel (C=CLIENT, G=GARDIEN, BAL, A=ACCUEIL, AH=ACCUEIL HOTEL)."@),
        es_text("tournees_colis_format"@) == Some("{} tournées • {} paquetes"@),
        es_text("tournees"@) == Some("tournées"@),
        es_text("colis_livres_statut"@) == Some("{} paquetes • {} entregados • {}"@),
        es_text("signale_par"@) == Some("Reportado por:"@),
        es_text("notes_label"@) == Some("Notas:"@),
        es_text("tournee_word"@) == Some("Tournée"@),
        es_text("paquets_tournee"@) == Some("Paquetes de la tournée"@),
        es_text("optimisation_routes"@) == Some("Optimización de Rutas de Entrega"@),
        es_text("type_utilisateur"@) == Some("Tipo de usuario"@),
        es_text("chauffeur"@) == Some("Conductor"@),
        es_text("admin"@) == Some("Admin"@),
        es_text("connexion"@) == Some("Conectar"@),
        es_text("utilisateur"@) == Some("Usuario"@),
        es_text("utilisateur_placeholder"@) == Some("Introduzca su nombre de usuario"@),
        es_text("mot_de_passe"@) == Some("Contraseña"@),
        es_text("mot_de_passe_placeholder"@) == Some("Introduzca su contraseña"@),
        es_text("entreprise"@) == Some("Empresa"@),
        es_text("selectionner_entreprise"@) == Some("Seleccionar empresa"@),
        es_text("buscar_empresa"@) == Some("Buscar empresa..."@),
        es_text("veuillez_remplir_champs"@) == Some("Por favor complete todos los campos"@),
        es_text("chargement_entreprises"@) == Some("Cargando empresas..."@),
        es_text("aucune_entreprise"@) == Some("No se encontraron empresas"@),
        es_text("buscar_tracking_title"@) == Some("Buscar Tracking"@),
        es_text("buscar_tracking_placeholder"@) == Some("Buscar tracking..."@),
        es_text("aucun_tracking"@) == Some("No se encontraron trackings"@),
        es_text("scanner_title"@) == Some("Escanear"@),
        es_text("cargando_sesion"@) == Some("Cargando sesión..."@),
{
    lemma_key_positions();
    assert(key_index(table_key(0)) == 0);
    assert(key_index(table_key(1)) == 1);
    assert(key_index(table_key(2)) == 2);
    assert(key_index(table_key(3)) == 3);
    assert(key_index(table_key(4)) == 4);
    assert(key_index(table_key(5)) == 5);
    assert(key_index(table_key(6)) == 6);
    assert(key_index(table_key(7)) == 7);
    assert(key_index(table_key(8)) == 8);
    assert(key_index(table_key(9)) == 9);
    assert(key_index(table_key(10)) == 10);
    assert(key_index(table_key(11)) == 11);
    assert(key_index(table_key(12)) == 12);
    assert(key_index(table_key(13)) == 13);
    assert(key_index(table_key(14)) == 14);
    assert(key_index(table_key(15)) == 15);
    assert(key_index(table_key(16)) == 16);
    assert(key_index(table_key(17)) == 17);
    assert(key_index(table_key(18)) == 18);
    assert(key_index(table_key(19)) == 19);
    assert(key_index(table_key(20)) == 20);
    assert(key_index(table_key(21)) == 21);
    assert(key_index(table_key(22)) == 22);
    assert(key_index(table_key(23)) == 23);
    assert(key_index(table_key(24)) == 24);
    assert(key_index(table_key(25)) == 25);
    assert(key_index(table_key(26)) == 26);
    assert(key_index(table_key(27)) == 27);
    assert(key_index(table_key(28)) == 28);
    assert(key_index(table_key(29)) == 29);
    assert(key_index(table_key(30)) == 30);
    assert(key_index(table_key(31)) == 31);
    assert(key_index(table_key(32)) == 32);
    assert(key_index(table_key(33)) == 33);
    assert(key_index(table_key(34)) == 34);
    assert(key_index(table_key(35)) == 35);
    assert(key_index(table_key(36)) == 36);
    assert(key_index(table_key(37)) == 37);
    assert(key_index(table_key(38)) == 38);
    assert(key_index(table_key(39)) == 39);
    assert(key_index(table_key(40)) == 40);
    assert(key_index(table_key(41)) == 41);
    assert(key_index(table_key(42)) == 42);
    assert(key_index(table_key(43)) == 43);
    assert(key_index(table_key(44)) == 44);
    assert(key_index(table_key(45)) == 45);
    assert(key_index(table_key(46)) == 46);
    assert(key_index(table_key(47)) == 47);
    assert(key_index(table_key(48)) == 48);
    assert(key_index(table_key(49)) == 49);
    assert(key_index(table_key(50)) == 50);
    assert(key_index(table_key(51)) == 51);
    assert(key_index(table_key(52)) == 52);
    assert(key_index(table_key(53)) == 53);
    assert(key_index(table_key(54)) == 54);
    assert(key_index(table_key(55)) == 55);
    assert(key_index(table_key(56)) == 56);
    assert(key_index(table_key(57)) == 57);
    assert(key_index(table_key(58)) == 58);
    assert(key_index(table_key(59)) == 59);
    assert(key_index(table_key(60)) == 60);
    assert(key_index(table_key(61)) == 61);
    assert(key_index(table_key(62)) == 62);
    assert(key_index(table_key(63)) == 63);
    assert(key_index(table_key(64)) == 64);
    assert(key_index(table_key(65)) == 65);
    assert(key_index(table_key(66)) == 66);
    assert(key_index(table_key(67)) == 67);
    assert(key_index(table_key(68)) == 68);
    assert(key_index(table_key(69)) == 69);
    assert(key_index(table_key(70)) == 70);
    assert(key_index(table_key(71)) == 71);
    assert(key_index(table_key(72)) == 72);
    assert(key_index(table_key(73)) == 73);
    assert(key_index(table_key(74)) == 74);
    assert(key_index(table_key(75)) == 75);
    assert(key_index(table_key(76)) == 76);
    assert(key_index(table_key(77)) == 77);
    assert(key_index(table_key(78)) == 78);
    assert(key_index(table_key(79)) == 79);
    assert(key_index(table_key(80)) == 80);
    assert(key_index(table_key(81)) == 81);
    assert(key_index(table_key(82)) == 82);
    assert(key_index(table_key(83)) == 83);
    assert(key_index(table_key(84)) == 84);
    assert(key_index(table_key(85)) == 85);
    assert(key_index(table_key(86)) == 86);
    assert(key_index(table_key(87)) == 87);
    assert(key_index(table_key(88)) == 88);
    assert(key_index(table_key(89)) == 89);
    assert(key_index(table_key(90)) == 90);
    assert(key_index(table_key(91)) == 91);
    assert(key_index(table_key(92)) == 92);
    assert(key_index(table_key(93)) == 93);
    assert(key_index(table_key(94)) == 94);
    assert(key_index(table_key(95)) == 95);
    assert(key_index(table_key(96)) == 96);
    assert(key_index(table_key(97)) == 97);
    assert(key_index(table_key(98)) == 98);
}

/// The French text of each key of the tables.
#[verifier::rlimit(100)]
pub proof fn law_french_texts()
    ensures
        fr_text("destinataire"@) == Some("Destinataire"@),
        fr_text("adresse"@) == Some("Adresse"@),
        fr_text("telephone"@) == Some("Téléphone"@),
        fr_text("codes_porte"@) == Some("Codes de porte"@),
        fr_text("acces_bal"@) == Some("Accès BAL"@),
        fr_text("indications_client"@) == Some("Indications client"@),
        fr_text("notes_chauffeur"@) == Some("Notes chauffeur"@),
        fr_text("enregistrer"@) == Some("Enregistrer"@),
        fr_text("annuler"@) == Some("Annuler"@),
        fr_text("modifier"@) == Some("Modifier"@),
        fr_text("non_renseigne"@) == Some("Non renseigné"@),
        fr_text("ajouter_note"@) == Some("Ajouter une note"@),
        fr_text("nouvelle_adresse"@) == Some("Nouvelle adresse"@),
        fr_text("code_de_porte"@) == Some("Code de porte"@),
        fr_text("oui"@) == Some("Oui"@),
        fr_text("non"@) == Some("Non"@),
        fr_text("parametres"@) == Some("Paramètres"@),
        fr_text("langue"@) == Some("Langue"@),
        fr_text("mode_edition"@) == Some("Mode édition"@),
        fr_text("filtrer"@) == Some("Filtrer"@),
        fr_text("codes_couleur"@) == Some("🎨 Codes couleur"@),
        fr_text("notifications_navigateur"@) == Some("Notifications du navigateur"@),
        fr_text("deconnexion"@) == Some("⎋ Déconnexion"@),
        fr_text("relais"@) == Some("RELAIS"@),
        fr_text("rcs_premium"@) == Some("RCS (Premium)"@),
        fr_text("livre"@) == Some("Livré"@),
        fr_text("non_livre"@) == Some("Non livré"@),
        fr_text("en_transit"@) == Some("En transit"@),
        fr_text("receptionne"@) == Some("Réceptionné"@),
        fr_text("en_collecte"@) == Some("En collecte"@),
        fr_text("route_optimizer"@) == Some("Route Optimizer"@),
        fr_text("optimiser"@) == Some("Optimiser"@),
        fr_text("scanner"@) == Some("Scanner"@),
        fr_text("rafraichir"@) == Some("Rafraîchir"@),
        fr_text("aucun_colis"@) == Some("Aucun colis dans la session"@),
        fr_text("veuillez_rafraichir"@) == Some("Veuillez rafraîchir ou recharger la tournée"@),
        fr_text("traitees"@) == Some("traitées"@),
        fr_text("livres"@) == Some("livrés"@),
        fr_text("paquets"@) == Some("paquets"@),
        fr_text("oui_capital"@) == Some("Oui"@),
        fr_text("non_capital"@) == Some("Non"@),
        fr_text("marquer_problematique"@) == Some("Marquer comme problématique"@),
        fr_text("problematique"@) == Some("Problématique"@),
        fr_text("traçabilité"@) == Some("Traçabilité"@),
        fr_text("rechercher_tracking"@) == Some("Rechercher un tracking"@),
        fr_text("rechercher"@) == Some("Rechercher"@),
        fr_text("saisir_tracking_rechercher"@) == Some("Saisir un tracking et cliquer sur Rechercher"@),
        fr_text("aucun_colis_trouve"@) == Some("Aucun colis trouvé"@),
        fr_text("erreur"@) == Some("Erreur"@),
        fr_text("admin_dashboard"@) == Some("Admin Dashboard"@),
        fr_text("buscar_tracking"@) == Some("Rechercher tracking"@),
        fr_text("demandes_en_attente"@) == Some("demandes en attente"@),
        fr_text("tableau_bord"@) == Some("Tableau de bord"@),
        fr_text("chargement_paquets"@) == Some("Chargement des paquets..."@),
        fr_text("demande"@) == Some("Demande"@),
        fr_text("chargement"@) == Some("Chargement..."@),
        fr_text("fermer"@) == Some("Fermer"@),
        fr_text("confirmer"@) == Some("Confirmer"@),
        fr_text("demandes_changement_statut"@) == Some("Demandes de changement de statut"@),
        fr_text("apercu_excel"@) == Some("Aperçu Excel"@),
        fr_text("masquer_apercu"@) == Some("Masquer aperçu"@),
        fr_text("exporter_excel"@) == Some("Exporter Excel"@),
        fr_text("fermer_le_jour"@) == Some("Fermer le jour"@),
        fr_text("ref_colis"@) == Some("REF COLIS (en majuscule)"@),
        fr_text("type_livraison"@) == Some("TYPE DE LIVRAISON"@),
        fr_text("en_attente"@) == Some("En attente"@),
        fr_text("cliquer_voir_historique_confirmer"@) == Some("Cliquer pour voir l'historique et confirmer"@),
        fr_text("voulez_fermer_jour"@) == Some("Voulez-vous fermer le jour ? Les demandes confirmées passeront à résolues. Les sessions de tournées seront également supprimées."@),
        fr_text("export_terminée_fermer"@) == Some("Exportation terminée. Voulez-vous fermer le jour et vider l'aperçu ? Les sessions de tournées seront également supprimées."@),
        fr_text("necessite_changement_statut"@) == Some("Nécessite changement de statut"@),
        fr_text("type_livraison_label"@) == Some("Type de livraison"@),
        fr_text("choisir_type_livraison"@) == Some("Choisissez le type de livraison pour l'Excel (C=CLIENT, G=GARDIEN, BAL, A=ACCUEIL, AH=ACCUEIL HOTEL)."@),
        fr_text("tournees_colis_format"@) == Some("{} tournées • {} colis"@),
        fr_text("tournees"@) == Some("tournées"@),
        fr_text("colis_livres_statut"@) == Some("{} colis • {} livrés • {}"@),
        fr_text("signale_par"@) == Some("Signalé par:"@),
        fr_text("notes_label"@) == Some("Notes:"@),
        fr_text("tournee_word"@) == Some("Tournée"@),
        fr_text("paquets_tournee"@) == Some("Paquets de la tournée"@),
        fr_text("optimisation_routes"@) == Some("Optimisation de Routes de Livraison"@),
        fr_text("type_utilisateur"@) == Some("Type d'utilisateur"@),
        fr_text("chauffeur"@) == Some("Chauffeur"@),
        fr_text("admin"@) == Some("Admin"@),
        fr_text("connexion"@) == Some("Se connecter"@),
        fr_text("utilisateur"@) == Some("Utilisateur"@),
        fr_text("utilisateur_placeholder"@) == Some("Entrez votre nom d'utilisateur"@),
        fr_text("mot_de_passe"@) == Some("Mot de passe"@),
        fr_text("mot_de_passe_placeholder"@) == Some("Entrez votre mot de passe"@),
        fr_text("entreprise"@) == Some("Entreprise"@),
        fr_text("selectionner_entreprise"@) == Some("Sélectionner l'entreprise"@),
        fr_text("buscar_empresa"@) == Some("Rechercher entreprise..."@),
        fr_text("veuillez_remplir_champs"@) == Some("Veuillez remplir tous les champs"@),
        fr_text("chargement_entreprises"@) == Some("Chargement des entreprises..."@),
        fr_text("aucune_entreprise"@) == Some("Aucune entreprise trouvée"@),
        fr_text("buscar_tracking_title"@) == Some("Rechercher Tracking"@),
        fr_text("buscar_tracking_placeholder"@) == Some("Rechercher un tracking..."@),
        fr_text("aucun_tracking"@) == Some("Aucun tracking trouvé"@),
        fr_text("scanner_title"@) == Some("Scanner"@),
        fr_text("cargando_sesion"@) == Some("Chargement de la session..."@),
{
    lemma_key_positions();
    assert(key_index(table_key(0)) == 0);
    assert(key_index(table_key(1)) == 1);
    assert(key_index(table_key(2)) == 2);
    assert(key_index(table_key(3)) == 3);
    assert(key_index(table_key(4)) == 4);
    assert(key_index(table_key(5)) == 5);
    assert(key_index(table_key(6)) == 6);
    assert(key_index(table_key(7)) == 7);
    assert(key_index(table_key(8)) == 8);
    assert(key_index(table_key(9)) == 9);
    assert(key_index(table_key(10)) == 10);
    assert(key_index(table_key(11)) == 11);
    assert(key_index(table_key(12)) == 12);
    assert(key_index(table_key(13)) == 13);
    assert(key_index(table_key(14)) == 14);
    assert(key_index(table_key(15)) == 15);
    assert(key_index(table_key(16)) == 16);
    assert(key_index(table_key(17)) == 17);
    assert(key_index(table_key(18)) == 18);
    assert(key_index(table_key(19)) == 19);
    assert(key_index(table_key(20)) == 20);
    assert(key_index(table_key(21)) == 21);
    assert(key_index(table_key(22)) == 22);
    assert(key_index(table_key(23)) == 23);
    assert(key_index(table_key(24)) == 24);
    assert(key_index(table_key(25)) == 25);
    assert(key_index(table_key(26)) == 26);
    assert(key_index(table_key(27)) == 27);
    assert(key_index(table_key(28)) == 28);
    assert(key_index(table_key(29)) == 29);
    assert(key_index(table_key(30)) == 30);
    assert(key_index(table_key(31)) == 31);
    assert(key_index(table_key(32)) == 32);
    assert(key_index(table_key(33)) == 33);
    assert(key_index(table_key(34)) == 34);
    assert(key_index(table_key(35)) == 35);
    assert(key_index(table_key(36)) == 36);
    assert(key_index(table_key(37)) == 37);
    assert(key_index(table_key(38)) == 38);
    assert(key_index(table_key(39)) == 39);
    assert(key_index(table_key(40)) == 40);
    assert(key_index(table_key(41)) == 41);
    assert(key_index(table_key(42)) == 42);
    assert(key_index(table_key(43)) == 43);
    assert(key_index(table_key(44)) == 44);
    assert(key_index(table_key(45)) == 45);
    assert(key_index(table_key(46)) == 46);
    assert(key_index(table_key(47)) == 47);
    assert(key_index(table_key(48)) == 48);
    assert(key_index(table_key(49)) == 49);
    assert(key_index(table_key(50)) == 50);
    assert(key_index(table_key(51)) == 51);
    assert(key_index(table_key(52)) == 52);
    assert(key_index(table_key(53)) == 53);
    assert(key_index(table_key(54)) == 54);
    assert(key_index(table_key(55)) == 55);
    assert(key_index(table_key(56)) == 56);
    assert(key_index(table_key(57)) == 57);
    assert(key_index(table_key(58)) == 58);
    assert(key_index(table_key(59)) == 59);
    assert(key_index(table_key(60)) == 60);
    assert(key_index(table_key(61)) == 61);
    assert(key_index(table_key(62)) == 62);
    assert(key_index(table_key(63)) == 63);
    assert(key_index(table_key(64)) == 64);
    assert(key_index(table_key(65)) == 65);
    assert(key_index(table_key(66)) == 66);
    assert(key_index(table_key(67)) == 67);
    assert(key_index(table_key(68)) == 68);
    assert(key_index(table_key(69)) == 69);
    assert(key_index(table_key(70)) == 70);
    assert(key_index(table_key(71)) == 71);
    assert(key_index(table_key(72)) == 72);
    assert(key_index(table_key(73)) == 73);
    assert(key_index(table_key(74)) == 74);
    assert(key_index(table_key(75)) == 75);
    assert(key_index(table_key(76)) == 76);
    assert(key_index(table_key(77)) == 77);
    assert(key_index(table_key(78)) == 78);
    assert(key_index(table_key(79)) == 79);
    assert(key_index(table_key(80)) == 80);
    assert(key_index(table_key(81)) == 81);
    assert(key_index(table_key(82)) == 82);
    assert(key_index(table_key(83)) == 83);
    assert(key_index(table_key(84)) == 84);
    assert(key_index(table_key(85)) == 85);
    assert(key_index(table_key(86)) == 86);
    assert(key_index(table_key(87)) == 87);
    assert(key_index(table_key(88)) == 88);
    assert(key_index(table_key(89)) == 89);
    assert(key_index(table_key(90)) == 90);
    assert(key_index(table_key(91)) == 91);
    assert(key_index(table_key(92)) == 92);
    assert(key_index(table_key(93)) == 93);
    assert(key_index(table_key(94)) == 94);
    assert(key_index(table_key(95)) == 95);
    assert(key_index(table_key(96)) == 96);
    assert(key_index(table_key(97)) == 97);
    assert(key_index(table_key(98)) == 98);
}

/// Each translation table holds 99 keys.
pub proof fn law_tables_have_99_keys()
    ensures
        Set::new(|k: Seq<char>| es_text(k) is Some).finite(),
        Set::new(|k: Seq<char>| es_text(k) is Some).len() == 99,
        Set::new(|k: Seq<char>| fr_text(k) is Some).finite(),
        Set::new(|k: Seq<char>| fr_text(k) is Some).len() == 99,
{
    let range = vstd::set_lib::set_int_range(0, 99);
    let es_keys = Set::new(|k: Seq<char>| es_text(k) is Some);
    let fr_keys = Set::new(|k: Seq<char>| fr_text(k) is Some);
    lemma_key_positions();
    vstd::set_lib::lemma_int_range(0, 99);
    let f = |i: int| table_key(i);
    assert(vstd::relations::injective_on(f, range)) by {
        assert forall|a: int, b: int| range.contains(a) && range.contains(b) && #[trigger] f(a) == #[trigger] f(b)
            implies a == b by {
            assert(key_index(table_key(a)) == a);
            assert(key_index(table_key(b)) == b);
        }
    }
    assert(range.map(f) =~= es_keys) by {
        assert forall|k: Seq<char>| es_keys.contains(k) implies range.map(f).contains(k) by {
            lemma_es_keys(k);
            assert(range.contains(key_index(k)) && f(key_index(k)) == k);
        }
        assert forall|k: Seq<char>| range.map(f).contains(k) implies es_keys.contains(k) by {
            let i = choose|i: int| range.contains(i) && f(i) == k;
            assert(key_index(table_key(i)) == i);
            lemma_es_keys(k);
        }
    }
    vstd::set_lib::lemma_map_size(range, es_keys, f);
    assert(es_keys =~= fr_keys) by {
        assert forall|k: Seq<char>| es_keys.contains(k) <==> fr_keys.contains(k) by {
            law_tables_share_keys(k);
        }
    }
}

/// The Spanish text of `key`.
fn es_lookup(key: &str) -> (r: Option<&'static str>)
    ensures
        match r {
            Some(text) => es_text(key@) == Some(text@),
            None => es_text(key@).is_none(),
        },
{
    if str_eq(key, "destinataire") {
        Some("Destinatario")
    } else if str_eq(key, "adresse") {
        Some("Dirección")
    } else if str_eq(key, "telephone") {
        Some("Teléfono")
    } else if str_eq(key, "codes_porte") {
        Some("Códigos de puerta")
    } else if str_eq(key, "acces_bal") {
        Some("Acceso BAL")
    } else if str_eq(key, "indications_client") {
        Some("Indicaciones cliente")
    } else if str_eq(key, "notes_chauffeur") {
        Some("Notas chofer")
    } else if str_eq(key, "enregistrer") {
        Some("Guardar")
    } else if str_eq(key, "annuler") {
        Some("Cancelar")
    } else if str_eq(key, "modifier") {
        Some("Modificar")
    } else if str_eq(key, "non_renseigne") {
        Some("No especificado")
    } else if str_eq(key, "ajouter_note") {
        Some("Agregar una nota")
    } else if str_eq(key, "nouvelle_adresse") {
        Some("Nueva dirección")
    } else if str_eq(key, "code_de_porte") {
        Some("Código de puerta")
    } else if str_eq(key, "oui") {
        Some("Sí")
    } else if str_eq(key, "non") {
        Some("No")
    } else if str_eq(key, "parametres") {
        Some("Parámetros")
    } else if str_eq(key, "langue") {
        Some("Idioma")
    } else if str_eq(key, "mode_edition") {
        Some("Modo edición")
    } else if str_eq(key, "filtrer") {
        Some("Filtrar")
    } else if str_eq(key, "codes_couleur") {
        Some("🎨 Códigos color")
    } else if str_eq(key, "notifications_navigateur") {
        Some("Notificaciones del navegador")
    } else if str_eq(key, "deconnexion") {
        Some("⎋ Desconexión")
    } else if str_eq(key, "relais") {
        Some("RELAIS")
    } else if str_eq(key, "rcs_premium") {
        Some("RCS (Premium)")
    } else if str_eq(key, "livre") {
        Some("Entregado")
    } else if str_eq(key, "non_livre") {
        Some("No entregado")
    } else if str_eq(key, "en_transit") {
        Some("En tránsito")
    } else if str_eq(key, "receptionne") {
        Some("Recibido")
    } else if str_eq(key, "en_collecte") {
        Some("En recogida")
    } else if str_eq(key, "route_optimizer") {
        Some("Route Optimizer")
    } else if str_eq(key, "optimiser") {
        Some("Optimizar")
    } else if str_eq(key, "scanner") {
        Some("Escanear")
    } else if str_eq(key, "rafraichir") {
        Some("Refrescar")
    } else if str_eq(key, "aucun_colis") {
        Some("No hay paquetes en la sesión")
    } else if str_eq(key, "veuillez_rafraichir") {
        Some("Por favor refrescar o recargar la ronda")
    } else if str_eq(key, "traitees") {
        Some("tratadas")
    } else if str_eq(key, "livres") {
        Some("entregados")
    } else if str_eq(key, "paquets") {
        Some("paquetes")
    } else if str_eq(key, "oui_capital") {
        Some("Sí")
    } else if str_eq(key, "non_capital") {
        Some("No")
    } else if str_eq(key, "marquer_problematique") {
        Some("Marcar como problemático")
    } else if str_eq(key, "problematique") {
        Some("Problemático")
    } else if str_eq(key, "traçabilité") {
        Some("Trazabilidad")
    } else if str_eq(key, "rechercher_tracking") {
        Some("Buscar tracking")
    } else if str_eq(key, "rechercher") {
        Some("Buscar")
    } else if str_eq(key, "saisir_tracking_rechercher") {
        Some("Introducir tracking y clicar en Buscar")
    } else if str_eq(key, "aucun_colis_trouve") {
        Some("No se encontraron paquetes")
    } else if str_eq(key, "erreur") {
        Some("Error")
    } else if str_eq(key, "admin_dashboard") {
        Some("Panel Admin")
    } else if str_eq(key, "buscar_tracking") {
        Some("Buscar tracking")
    } else if str_eq(key, "demandes_en_attente") {
        Some("solicitudes pendientes")
    } else if str_eq(key, "tableau_bord") {
        Some("Panel de control")
    } else if str_eq(key, "chargement_paquets") {
        Some("Cargando paquetes...")
    } else if str_eq(key, "demande") {
        Some("Solicitud")
    } else if str_eq(key, "chargement") {
        Some("Cargando...")
    } else if str_eq(key, "fermer") {
        Some("Cerrar")
    } else if str_eq(key, "confirmer") {
        Some("Confirmar")
    } else if str_eq(key, "demandes_changement_statut") {
        Some("Solicitudes de cambio de estado")
    } else if str_eq(key, "apercu_excel") {
        Some("Vista previa Excel")
    } else if str_eq(key, "masquer_apercu") {
        Some("Ocultar vista previa")
    } else if str_eq(key, "exporter_excel") {
        Some("Exportar Excel")
    } else if str_eq(key, "fermer_le_jour") {
        Some("Cerrar el día")
    } else if str_eq(key, "ref_colis") {
        Some("REF COLIS (en mayúscula)")
    } else if str_eq(key, "type_livraison") {
        Some("TIPO DE ENTREGA")
    } else if str_eq(key, "en_attente") {
        Some("En espera")
    } else if str_eq(key, "cliquer_voir_historique_confirmer") {
        Some("Clic para ver historial y confirmar")
    } else if str_eq(key, "voulez_fermer_jour") {
        Some("¿Desea cerrar el día? Las solicitudes confirmadas pasarán a resueltas. Las sesiones de tournées también se eliminarán.")
    } else if str_eq(key, "export_terminée_fermer") {
        Some("Exportación terminada. ¿Desea cerrar el día y vaciar la vista previa? Las sesiones de tournées también se eliminarán.")
    } else if str_eq(key, "necessite_changement_statut") {
        Some("Requiere cambio de estado")
    } else if str_eq(key, "type_livraison_label") {
        Some("Tipo de entrega")
    } else if str_eq(key, "choisir_type_livraison") {
        Some("Elija el tipo de entrega para el Excel (C=CLIENT, G=GARDIEN, BAL, A=ACCUEIL, AH=ACCUEIL HOTEL).")
    } else if str_eq(key, "tournees_colis_format") {
        Some("{} tournées • {} paquetes")
    } else if str_eq(key, "tournees") {
        Some("tournées")
    } else if str_eq(key, "colis_livres_statut") {
        Some("{} paquetes • {} entregados • {}")
    } else if str_eq(key, "signale_par") {
        Some("Reportado por:")
    } else if str_eq(key, "notes_label") {
        Some("Notas:")
    } else if str_eq(key, "tournee_word") {
        Some("Tournée")
    } else if str_eq(key, "paquets_tournee") {
        Some("Paquetes de la tournée")
    } else if str_eq(key, "optimisation_routes") {
        Some("Optimización de Rutas de Entrega")
    } else if str_eq(key, "type_utilisateur") {
        Some("Tipo de usuario")
    } else if str_eq(key, "chauffeur") {
        Some("Conductor")
    } else if str_eq(key, "admin") {
        Some("Admin")
    } else if str_eq(key, "connexion") {
        Some("Conectar")
    } else if str_eq(key, "utilisateur") {
        Some("Usuario")
    } else if str_eq(key, "utilisateur_placeholder") {
        Some("Introduzca su nombre de usuario")
    } else if str_eq(key, "mot_de_passe") {
        Some("Contraseña")
    } else if str_eq(key, "mot_de_passe_placeholder") {
        Some("Introduzca su contraseña")
    } else if str_eq(key, "entreprise") {
        Some("Empresa")
    } else if str_eq(key, "selectionner_entreprise") {
        Some("Seleccionar empresa")
    } else if str_eq(key, "buscar_empresa") {
        Some("Buscar empresa...")
    } else if str_eq(key, "veuillez_remplir_champs") {
        Some("Por favor complete todos los campos")
    } else if str_eq(key, "chargement_entreprises") {
        Some("Cargando empresas...")
    } else if str_eq(key, "aucune_entreprise") {
        Some("No se encontraron empresas")
    } else if str_eq(key, "buscar_tracking_title") {
        Some("Buscar Tracking")
    } else if str_eq(key, "buscar_tracking_placeholder") {
        Some("Buscar tracking...")
    } else if str_eq(key, "aucun_tracking") {
        Some("No se encontraron trackings")
    } else if str_eq(key, "scanner_title") {
        Some("Escanear")
    } else if str_eq(key, "cargando_sesion") {
        Some("Cargando sesión...")
    } else {
        None
    }
}

/// The French text of `key`.
fn fr_lookup(key: &str) -> (r: Option<&'static str>)
    ensures
        match r {
            Some(text) => fr_text(key@) == Some(text@),
            None => fr_text(key@).is_none(),
        },
{
    if str_eq(key, "destinataire") {
        Some("Destinataire")
    } else if str_eq(key, "adresse") {
        Some("Adresse")
    } else if str_eq(key, "telephone") {
        Some("Téléphone")
    } else if str_eq(key, "codes_porte") {
        Some("Codes de porte")
    } else if str_eq(key, "acces_bal") {
        Some("Accès BAL")
    } else if str_eq(key, "indications_client") {
        Some("Indications client")
    } else if str_eq(key, "notes_chauffeur") {
        Some("Notes chauffeur")
    } else if str_eq(key, "enregistrer") {
        Some("Enregistrer")
    } else if str_eq(key, "annuler") {
        Some("Annuler")
    } else if str_eq(key, "modifier") {
        Some("Modifier")
    } else if str_eq(key, "non_renseigne") {
        Some("Non renseigné")
    } else if str_eq(key, "ajouter_note") {
        Some("Ajouter une note")
    } else if str_eq(key, "nouvelle_adresse") {
        Some("Nouvelle adresse")
    } else if str_eq(key, "code_de_porte") {
        Some("Code de porte")
    } else if str_eq(key, "oui") {
        Some("Oui")
    } else if str_eq(key, "non") {
        Some("Non")
    } else if str_eq(key, "parametres") {
        Some("Paramètres")
    } else if str_eq(key, "langue") {
        Some("Langue")
    } else if str_eq(key, "mode_edition") {
        Some("Mode édition")
    } else if str_eq(key, "filtrer") {
        Some("Filtrer")
    } else if str_eq(key, "codes_couleur") {
        Some("🎨 Codes couleur")
    } else if str_eq(key, "notifications_navigateur") {
        Some("Notifications du navigateur")
    } else if str_eq(key, "deconnexion") {
        Some("⎋ Déconnexion")
    } else if str_eq(key, "relais") {
        Some("RELAIS")
    } else if str_eq(key, "rcs_premium") {
        Some("RCS (Premium)")
    } else if str_eq(key, "livre") {
        Some("Livré")
    } else if str_eq(key, "non_livre") {
        Some("Non livré")
    } else if str_eq(key, "en_transit") {
        Some("En transit")
    } else if str_eq(key, "receptionne") {
        Some("Réceptionné")
    } else if str_eq(key, "en_collecte") {
        Some("En collecte")
    } else if str_eq(key, "route_optimizer") {
        Some("Route Optimizer")
    } else if str_eq(key, "optimiser") {
        Some("Optimiser")
    } else if str_eq(key, "scanner") {
        Some("Scanner")
    } else if str_eq(key, "rafraichir") {
        Some("Rafraîchir")
    } else if str_eq(key, "aucun_colis") {
        Some("Aucun colis dans la session")
    } else if str_eq(key, "veuillez_rafraichir") {
        Some("Veuillez rafraîchir ou recharger la tournée")
    } else if str_eq(key, "traitees") {
        Some("traitées")
    } else if str_eq(key, "livres") {
        Some("livrés")
    } else if str_eq(key, "paquets") {
        Some("paquets")
    } else if str_eq(key, "oui_capital") {
        Some("Oui")
    } else if str_eq(key, "non_capital") {
        Some("Non")
    } else if str_eq(key, "marquer_problematique") {
        Some("Marquer comme problématique")
    } else if str_eq(key, "problematique") {
        Some("Problématique")
    } else if str_eq(key, "traçabilité") {
        Some("Traçabilité")
    } else if str_eq(key, "rechercher_tracking") {
        Some("Rechercher un tracking")
    } else if str_eq(key, "rechercher") {
        Some("Rechercher")
    } else if str_eq(key, "saisir_tracking_rechercher") {
        Some("Saisir un tracking et cliquer sur Rechercher")
    } else if str_eq(key, "aucun_colis_trouve") {
        Some("Aucun colis trouvé")
    } else if str_eq(key, "erreur") {
        Some("Erreur")
    } else if str_eq(key, "admin_dashboard") {
        Some("Admin Dashboard")
    } else if str_eq(key, "buscar_tracking") {
        Some("Rechercher tracking")
    } else if str_eq(key, "demandes_en_attente") {
        Some("demandes en attente")
    } else if str_eq(key, "tableau_bord") {
        Some("Tableau de bord")
    } else if str_eq(key, "chargement_paquets") {
        Some("Chargement des paquets...")
    } else if str_eq(key, "demande") {
        Some("Demande")
    } else if str_eq(key, "chargement") {
        Some("Chargement...")
    } else if str_eq(key, "fermer") {
        Some("Fermer")
    } else if str_eq(key, "confirmer") {
        Some("Confirmer")
    } else if str_eq(key, "demandes_changement_statut") {
        Some("Demandes de changement de statut")
    } else if str_eq(key, "apercu_excel") {
        Some("Aperçu Excel")
    } else if str_eq(key, "masquer_apercu") {
        Some("Masquer aperçu")
    } else if str_eq(key, "exporter_excel") {
        Some("Exporter Excel")
    } else if str_eq(key, "fermer_le_jour") {
        Some("Fermer le jour")
    } else if str_eq(key, "ref_colis") {
        Some("REF COLIS (en majuscule)")
    } else if str_eq(key, "type_livraison") {
        Some("TYPE DE LIVRAISON")
    } else if str_eq(key, "en_attente") {
        Some("En attente")
    } else if str_eq(key, "cliquer_voir_historique_confirmer") {
        Some("Cliquer pour voir l'historique et confirmer")
    } else if str_eq(key, "voulez_fermer_jour") {
        Some("Voulez-vous fermer le jour ? Les demandes confirmées passeront à résolues. Les sessions de tournées seront également supprimées.")
    } else if str_eq(key, "export_terminée_fermer") {
        Some("Exportation terminée. Voulez-vous fermer le jour et vider l'aperçu ? Les sessions de tournées seront également supprimées.")
    } else if str_eq(key, "necessite_changement_statut") {
        Some("Nécessite changement de statut")
    } else if str_eq(key, "type_livraison_label") {
        Some("Type de livraison")
    } else if str_eq(key, "choisir_type_livraison") {
        Some("Choisissez le type de livraison pour l'Excel (C=CLIENT, G=GARDIEN, BAL, A=ACCUEIL, AH=ACCUEIL HOTEL).")
    } else if str_eq(key, "tournees_colis_format") {
        Some("{} tournées • {} colis")
    } else if str_eq(key, "tournees") {
        Some("tournées")
    } else if str_eq(key, "colis_livres_statut") {
        Some("{} colis • {} livrés • {}")
    } else if str_eq(key, "signale_par") {
        Some("Signalé par:")
    } else if str_eq(key, "notes_label") {
        Some("Notes:")
    } else if str_eq(key, "tournee_word") {
        Some("Tournée")
    } else if str_eq(key, "paquets_tournee") {
        Some("Paquets de la tournée")
    } else if str_eq(key, "optimisation_routes") {
        Some("Optimisation de Routes de Livraison")
    } else if str_eq(key, "type_utilisateur") {
        Some("Type d'utilisateur")
    } else if str_eq(key, "chauffeur") {
        Some("Chauffeur")
    } else if str_eq(key, "admin") {
        Some("Admin")
    } else if str_eq(key, "connexion") {
        Some("Se connecter")
    } else if str_eq(key, "utilisateur") {
        Some("Utilisateur")
    } else if str_eq(key, "utilisateur_placeholder") {
        Some("Entrez votre nom d'utilisateur")
    } else if str_eq(key, "mot_de_passe") {
        Some("Mot de passe")
    } else if str_eq(key, "mot_de_passe_placeholder") {
        Some("Entrez votre mot de passe")
    } else if str_eq(key, "entreprise") {
        Some("Entreprise")
    } else if str_eq(key, "selectionner_entreprise") {
        Some("Sélectionner l'entreprise")
    } else if str_eq(key, "buscar_empresa") {
        Some("Rechercher entreprise...")
    } else if str_eq(key, "veuillez_remplir_champs") {
        Some("Veuillez remplir tous les champs")
    } else if str_eq(key, "chargement_entreprises") {
        Some("Chargement des entreprises...")
    } else if str_eq(key, "aucune_entreprise") {
        Some("Aucune entreprise trouvée")
    } else if str_eq(key, "buscar_tracking_title") {
        Some("Rechercher Tracking")
    } else if str_eq(key, "buscar_tracking_placeholder") {
        Some("Rechercher un tracking...")
    } else if str_eq(key, "aucun_tracking") {
        Some("Aucun tracking trouvé")
    } else if str_eq(key, "scanner_title") {
        Some("Scanner")
    } else if str_eq(key, "cargando_sesion") {
        Some("Chargement de la session...")
    } else {
        None
    }
}
/// The table of a language code given in upper case: Spanish for `ES`,
/// French for any other code.
pub open spec fn text_for(lang_upper: Seq<char>, key: Seq<char>) -> Option<Seq<char>> {
    if lang_upper == "ES"@ {
        es_text(key)
    } else {
        fr_text(key)
    }
}

/// What `key` reads in the language `lang_upper` (upper case): its text
/// from the table, or the key itself when the table lacks it.
pub open spec fn translated(key: Seq<char>, lang_upper: Seq<char>) -> Seq<char> {
    match text_for(lang_upper, key) {
        Some(text) => text,
        None => key,
    }
}

/// The text of `key` in the table of the language `lang` (any case).
fn get_translations(lang: &str, key: &str) -> (r: Option<&'static str>)
    ensures
        match r {
            Some(text) => text_for(uppercase_of(lang@), key@) == Some(text@),
            None => text_for(uppercase_of(lang@), key@).is_none(),
        },
        is_ascii_text(lang@) ==> uppercase_of(lang@) == lang@.map_values(|c: char| ascii_upper(c)),
{
    let lang_upper = to_uppercase(lang);
    translation_in(lang_upper.as_str(), key)
}

/// The text of `key` in the table of the upper-case language `lang_upper`.
pub fn translation_in(lang_upper: &str, key: &str) -> (r: Option<&'static str>)
    ensures
        match r {
            Some(text) => text_for(lang_upper@, key@) == Some(text@),
            None => text_for(lang_upper@, key@).is_none(),
        },
{
    if str_eq(lang_upper, "ES") {
        es_lookup(key)
    } else {
        fr_lookup(key)
    }
}

/// What `key` reads in the language `lang_upper`, an upper-case code.
pub fn translate(key: &str, lang_upper: &str) -> (r: String)
    ensures
        r@ == translated(key@, lang_upper@),
{
    match translation_in(lang_upper, key) {
        Some(text) => String::from_str(text),
        None => String::from_str(key),
    }
}

/// What `key` reads in the language `lang` (`ES` for Spanish, French
/// otherwise, in any case): its text, or the key when there is none.
pub fn t(key: &str, lang: &str) -> (r: String)
    ensures
        r@ == translated(key@, uppercase_of(lang@)),
        is_ascii_text(lang@) ==> r@ == translated(key@, lang@.map_values(|c: char| ascii_upper(c))),
{
    match get_translations(lang, key) {
        Some(text) => String::from_str(text),
        None => String::from_str(key),
    }
}

/// The Spanish table serves the language code `ES` and the French one
/// every other code; a key that the table lacks reads as itself.
pub proof fn law_translation_picks_the_table(lang_upper: Seq<char>, key: Seq<char>)
    ensures
        lang_upper == "ES"@ ==> text_for(lang_upper, key) == es_text(key),
        lang_upper != "ES"@ ==> text_for(lang_upper, key) == fr_text(key),
        translated(key, lang_upper) == match text_for(lang_upper, key) {
            Some(t) => t,
            None => key,
        },
{
}

} // verus!
