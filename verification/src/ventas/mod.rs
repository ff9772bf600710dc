//! Contexto VENTAS/CAJA: sesiones de caja con arqueo, sincronización de
//! ventas que llegan ya confirmadas desde el dispositivo y anulaciones.

pub mod sincronizacion;
pub mod caja;

use vstd::prelude::*;

verus! {

/// Estado de una venta: se confirma en el dispositivo; solo puede anularse.
#[derive(Debug, Clone, Copy, PartialEq, Eq, Structural)]
pub enum EstadoVenta {
    Confirmada,
    Anulada,
}

/// Medio de pago de una venta.
#[derive(Debug, Clone, Copy, PartialEq, Eq, Structural)]
pub enum MedioPago {
    Efectivo,
    Tarjeta,
    MercadoPago,
    Transferencia,
    CuentaCorriente,
}

} // verus!
