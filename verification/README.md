# surveillance_ftp

Poste de contrôle d'images : un serveur FTP intégré reçoit les images, chacune
est analysée par le service PIIA, le verdict est écrit dans un automate
Allen-Bradley (PCCC sur EtherNet/IP), puis l'image est archivée sur un serveur
FTP distant tenu en file (les plus anciennes sont supprimées à la limite).

- `src/` : la logique, avec ses contrats prouvés.
  - `texte` : rognage, découpage, entiers décimaux, comparaisons.
  - `config` : lecture de la configuration depuis les octets du document INI.
  - `plc` : choix du driver, valeurs écrites ; `plc::pccc` : adresses et
    trames PCCC ; `plc::allen_bradley` : état du driver et heartbeat.
  - `compteur` : compteurs d'envois et de suppressions.
  - `piia` : adresse du service et résultat d'analyse.
  - `client_ftp` : file distante (purge FIFO), chemins et adresses.
  - `serveur_ftp` : réglages du serveur intégré, identifiants.
  - `surveillant` : extensions, anti-rebond, fin d'écriture des fichiers.
  - `traitement` : statut affiché et résultat transmis à l'automate.
  - `deroulement` : enchaînement des étapes du traitement d'une image.
- `app/` : le programme (interface eframe, réseau, disque, fils). L'interface
  dépend d'eframe, qui n'est pas déclaré dans `Cargo.toml` : l'ajouter aux
  dépendances pour construire le programme.
- `tests/` : tests de la bibliothèque.
