//! Lógica de dominio del sistema de gestión para kioscos y almacenes:
//! precios, etiquetas, inventario con FEFO, cuenta corriente de clientes,
//! recepciones de mercadería, ventas y caja, identidad y permisos.
//!
//! Todo lo que decide o calcula vive acá, con su contrato verificado. La
//! base de datos, HTTP y el reloj quedan del lado de la aplicación, que le
//! pasa a esta biblioteca valores planos y persiste lo que ella decide.

pub mod error;
pub mod aritmetica;
pub mod texto;
pub mod compras;
pub mod etiquetado;
pub mod inventario;
pub mod identidad;
pub mod ventas;
pub mod clientes;
pub mod catalogo;
pub mod reportes;
