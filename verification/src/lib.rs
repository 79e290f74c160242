//! Classification rules and planning logic of a folder organizer: it decides,
//! for each file of a folder, the category folder (and, for dated PDFs, the
//! month and day folders) it belongs in, and the free name it gets there.

pub mod texto;
pub mod expresiones;
pub mod clasificador;
pub mod fechas;
pub mod rutas;
pub mod limpieza;
pub mod organizador;
