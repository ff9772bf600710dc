//! Aritmética monetaria: cocientes por potencias de diez redondeados al
//! entero más cercano, con la mitad lejos del cero. El redondeo lo hace
//! `rust_decimal`, igual que en el resto del sistema.

use rust_decimal::prelude::ToPrimitive;
use rust_decimal::{Decimal, RoundingStrategy};
use vstd::prelude::*;

verus! {

/// 10 elevado a `e`.
pub open spec fn potencia10(e: nat) -> int
    decreases e,
{
    if e == 0 {
        1
    } else {
        10 * potencia10((e - 1) as nat)
    }
}

/// `n / d` redondeado al entero más cercano; la mitad exacta se aleja del cero.
pub open spec fn redondeo_mitad_lejos(n: int, d: int) -> int {
    if n >= 0 {
        (n + d / 2) / d
    } else {
        -((-n + d / 2) / d)
    }
}

/// El valor entra en un `i64`.
pub open spec fn entra_en_i64(v: int) -> bool {
    i64::MIN <= v <= i64::MAX
}

/// Mayor mantisa que admite un `Decimal` (96 bits).
pub open spec fn mantisa_maxima() -> int {
    79228162514264337593543950335
}

/// Redondea `numerador / 10^escala` al entero, mitad lejos del cero, y lo
/// convierte a `i64` (`None` si no entra).
///
/// Llama a `Decimal::from_i128_with_scale`, `round_dp_with_strategy(0,
/// MidpointAwayFromZero)` y `to_i64` de `rust_decimal`. El contrato afirma lo
/// que muestra su código: el valor se arma exacto (la mantisa entra en 96
/// bits y la escala es a lo sumo 28), el redondeo suma uno a la magnitud
/// truncada cuando el resto es al menos la mitad, y `to_i64` devuelve `None`
/// exactamente cuando el entero no entra en `i64`.
#[verifier::external_body]
pub(crate) fn redondear_cociente(numerador: i128, escala: u32) -> (r: Option<i64>)
    requires
        escala <= 28,
        -mantisa_maxima() <= numerador <= mantisa_maxima(),
    ensures
        r is Some <==> entra_en_i64(redondeo_mitad_lejos(numerador as int, potencia10(escala as nat))),
        r matches Some(v) ==> v == redondeo_mitad_lejos(numerador as int, potencia10(escala as nat)),
{
    Decimal::from_i128_with_scale(numerador, escala)
        .round_dp_with_strategy(0, RoundingStrategy::MidpointAwayFromZero)
        .to_i64()
}

/// 10^4 y 10^8, a la vista del verificador.
pub proof fn lema_potencias()
    ensures
        potencia10(3) == 1000,
        potencia10(4) == 10000,
        potencia10(8) == 100000000,
{
    reveal_with_fuel(potencia10, 9);
}

} // verus!
