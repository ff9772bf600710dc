//! Contexto IDENTIDAD: permisos, usuarios y dispositivos.

pub mod permisos;
pub mod credenciales;
pub mod dispositivos;
pub mod cuentas;
