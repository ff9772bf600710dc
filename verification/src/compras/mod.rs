//! Contexto COMPRAS: cálculo de precios de venta y recepciones de mercadería.

pub mod precio;
pub mod recepcion;

use vstd::prelude::*;

verus! {

/// Ciclo de vida de una recepción: borrador → confirmada → completada
/// (cuando el último ítem queda etiquetado).
#[derive(Debug, Clone, Copy, PartialEq, Eq, Structural)]
pub enum EstadoRecepcion {
    Borrador,
    Confirmada,
    Completada,
}

} // verus!
