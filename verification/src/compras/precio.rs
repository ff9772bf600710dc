//! Cálculo de precio final de venta a partir del costo de recepción:
//!   base = costo                     (si el costo ya incluye IVA)
//!   base = costo × (1 + iva/100)     (si no lo incluye)
//!   precio_final = base × (1 + markup/100)
//! Los porcentajes van en centésimos (21,00 % = 2100), como en la columna
//! NUMERIC(5,2) que los guarda. El producto se arma exacto y el redondeo a
//! centavos se hace una sola vez, al final.

use vstd::prelude::*;
use crate::aritmetica::{
    entra_en_i64, lema_potencias, mantisa_maxima, potencia10, redondear_cociente,
    redondeo_mitad_lejos,
};
use crate::error::{es_validacion, validacion, ErrorApi};

verus! {

/// Un porcentaje NUMERIC(5,2) expresado en centésimos.
pub open spec fn porcentaje_valido(p: i64) -> bool {
    -99999 <= p <= 99999
}

/// Precio final exacto redondeado a centavos (mitad lejos del cero).
pub open spec fn precio_final(costo: int, incluye_iva: bool, iva: int, markup: int) -> int {
    if incluye_iva {
        redondeo_mitad_lejos(costo * (10000 + markup), 10000)
    } else {
        redondeo_mitad_lejos(costo * (10000 + iva) * (10000 + markup), 100000000)
    }
}

/// Costo con IVA incluido, redondeado a centavos.
pub open spec fn costo_con_iva(costo: int, incluye_iva: bool, iva: int) -> int {
    if incluye_iva {
        costo
    } else {
        redondeo_mitad_lejos(costo * (10000 + iva), 10000)
    }
}

proof fn lema_cotas_producto(costo: i64, a: int, b: int)
    requires
        -109999 <= a <= 109999,
        -109999 <= b <= 109999,
    ensures
        -200000000000000000000000000000 <= costo * a * b <= 200000000000000000000000000000,
        -1100000000000000000000000 <= costo * a <= 1100000000000000000000000,
{
    assert(-1100000000000000000000000 <= costo * a <= 1100000000000000000000000) by (nonlinear_arith)
        requires
            i64::MIN <= costo <= i64::MAX,
            -109999 <= a <= 109999,
    ;
    assert(-200000000000000000000000000000 <= (costo * a) * b <= 200000000000000000000000000000)
        by (nonlinear_arith)
        requires
            -1100000000000000000000000 <= costo * a <= 1100000000000000000000000,
            -109999 <= b <= 109999,
    ;
}

/// Un numerador que no entra en la mantisa de 96 bits da, sobre 10^8, un
/// valor que no entra en `i64`.
proof fn lema_fuera_de_mantisa_desborda(n: int)
    requires
        n > mantisa_maxima() || n < -mantisa_maxima(),
    ensures
        !entra_en_i64(redondeo_mitad_lejos(n, 100000000)),
{
    if n >= 0 {
        assert((n + 50000000) / 100000000 > 9223372036854775807) by (nonlinear_arith)
            requires
                n > 79228162514264337593543950335,
        ;
    } else {
        assert((-n + 50000000) / 100000000 > 9223372036854775808) by (nonlinear_arith)
            requires
                -n > 79228162514264337593543950335,
        ;
    }
}

/// Precio final de venta en centavos. Error si el resultado no entra en un
/// entero de 64 bits.
pub fn calcular_precio_final_centavos(
    costo_centavos: i64,
    costo_incluye_iva: bool,
    iva_pct: i64,
    markup_pct: i64,
) -> (r: Result<i64, ErrorApi>)
    requires
        porcentaje_valido(iva_pct),
        porcentaje_valido(markup_pct),
    ensures
        entra_en_i64(precio_final(costo_centavos as int, costo_incluye_iva, iva_pct as int, markup_pct as int))
            ==> r == Ok::<i64, ErrorApi>(precio_final(costo_centavos as int, costo_incluye_iva, iva_pct as int, markup_pct as int) as i64),
        !entra_en_i64(precio_final(costo_centavos as int, costo_incluye_iva, iva_pct as int, markup_pct as int))
            ==> (r matches Err(e) && es_validacion(e, "el precio calculado desborda"@)),
{
    proof {
        lema_potencias();
        lema_cotas_producto(costo_centavos, 10000 + markup_pct, 1);
        lema_cotas_producto(costo_centavos, 10000 + iva_pct, 10000 + markup_pct);
    }
    let factor_markup: i128 = 10000 + markup_pct as i128;
    let redondeado = if costo_incluye_iva {
        let n: i128 = costo_centavos as i128 * factor_markup;
        redondear_cociente(n, 4)
    } else {
        let factor_iva: i128 = 10000 + iva_pct as i128;
        let n: i128 = costo_centavos as i128 * factor_iva * factor_markup;
        if n > 79228162514264337593543950335 || n < -79228162514264337593543950335 {
            // Fuera de la mantisa de 96 bits el precio supera con creces a i64.
            proof {
                lema_fuera_de_mantisa_desborda(n as int);
            }
            return Err(validacion("el precio calculado desborda"));
        }
        redondear_cociente(n, 8)
    };
    match redondeado {
        Some(v) => Ok(v),
        None => Err(validacion("el precio calculado desborda")),
    }
}

/// Redondeo comercial: al múltiplo más cercano, la mitad hacia arriba.
pub open spec fn redondeo_a_multiplo(precio: int, multiplo: int) -> int {
    if multiplo <= 1 || precio <= 0 {
        precio
    } else if (precio + multiplo / 2) / multiplo * multiplo == 0 {
        precio
    } else {
        (precio + multiplo / 2) / multiplo * multiplo
    }
}

/// Redondeo comercial del precio de venta: al múltiplo más cercano, con la
/// mitad hacia arriba (resto < multiplo/2 baja, >= multiplo/2 sube). Con
/// `multiplo_centavos` en 0 o 1 no hace nada. Un precio menor que medio
/// múltiplo queda sin redondear: jamás se devuelve $0 para un precio real.
pub fn redondear_a_multiplo_centavos(precio_centavos: i64, multiplo_centavos: i64) -> (r: i64)
    requires
        multiplo_centavos <= 1 || precio_centavos <= 0
            || precio_centavos + multiplo_centavos / 2 <= i64::MAX,
    ensures
        r == redondeo_a_multiplo(precio_centavos as int, multiplo_centavos as int),
        // un precio real nunca se aplasta a cero
        precio_centavos > 0 ==> r > 0,
        // o queda igual, o es múltiplo
        r == precio_centavos || r % multiplo_centavos == 0,
        // nunca se mueve más de medio múltiplo
        multiplo_centavos > 1 && precio_centavos > 0 ==> precio_centavos - multiplo_centavos / 2 <= r
            <= precio_centavos + multiplo_centavos / 2,
{
    if multiplo_centavos <= 1 || precio_centavos <= 0 {
        return precio_centavos;
    }
    proof {
        let p = precio_centavos as int;
        let m = multiplo_centavos as int;
        let q = (p + m / 2) / m;
        assert(q * m <= p + m / 2 && p + m / 2 < q * m + m) by (nonlinear_arith)
            requires m > 1, p > 0, q == (p + m / 2) / m;
        assert((q * m) % m == 0) by (nonlinear_arith) requires m > 1;
        assert(q >= 0) by (nonlinear_arith) requires m > 1, p > 0, q == (p + m / 2) / m;
        assert(q * m >= 0) by (nonlinear_arith) requires m > 1, q >= 0;
    }
    let redondeado = (precio_centavos + multiplo_centavos / 2) / multiplo_centavos * multiplo_centavos;
    if redondeado == 0 {
        precio_centavos
    } else {
        redondeado
    }
}

/// Costo unitario base CON IVA incluido, en centavos. Es lo que se guarda en
/// el historial de precios y en la proyección del costo actual, para que los
/// costos sean comparables entre proveedores que pasan precios con y sin IVA.
pub fn normalizar_costo_con_iva_centavos(
    costo_centavos: i64,
    costo_incluye_iva: bool,
    iva_pct: i64,
) -> (r: Result<i64, ErrorApi>)
    requires
        porcentaje_valido(iva_pct),
    ensures
        entra_en_i64(costo_con_iva(costo_centavos as int, costo_incluye_iva, iva_pct as int))
            ==> r == Ok::<i64, ErrorApi>(costo_con_iva(costo_centavos as int, costo_incluye_iva, iva_pct as int) as i64),
        !entra_en_i64(costo_con_iva(costo_centavos as int, costo_incluye_iva, iva_pct as int))
            ==> (r matches Err(e) && es_validacion(e, "el costo calculado desborda"@)),
{
    if costo_incluye_iva {
        return Ok(costo_centavos);
    }
    proof {
        lema_potencias();
        lema_cotas_producto(costo_centavos, 10000 + iva_pct, 1);
    }
    let n: i128 = costo_centavos as i128 * (10000 + iva_pct as i128);
    match redondear_cociente(n, 4) {
        Some(v) => Ok(v),
        None => Err(validacion("el costo calculado desborda")),
    }
}

/// Escalar numerador y denominador por la misma potencia no cambia el redondeo.
proof fn lema_redondeo_escalado(n: int, d: int, k: int)
    requires
        d > 0,
        d % 2 == 0,
        k > 0,
    ensures
        redondeo_mitad_lejos(n * k, d * k) == redondeo_mitad_lejos(n, d),
{
    assert((d * k) / 2 == (d / 2) * k) by (nonlinear_arith)
        requires d > 0, d % 2 == 0, k > 0;
    if n >= 0 {
        assert(n * k >= 0) by (nonlinear_arith) requires n >= 0, k > 0;
        assert((n * k + (d / 2) * k) / (d * k) == (n + d / 2) / d) by (nonlinear_arith)
            requires d > 0, k > 0, n >= 0, d % 2 == 0;
    } else {
        assert(n * k < 0) by (nonlinear_arith) requires n < 0, k > 0;
        assert((-(n * k) + (d / 2) * k) / (d * k) == (-n + d / 2) / d) by (nonlinear_arith)
            requires d > 0, k > 0, n < 0, d % 2 == 0;
    }
}

/// El redondeo es monótono en el numerador.
proof fn lema_redondeo_monotono(a: int, b: int, d: int)
    requires
        d > 0,
        a <= b,
    ensures
        redondeo_mitad_lejos(a, d) <= redondeo_mitad_lejos(b, d),
{
    if a >= 0 {
        assert((a + d / 2) / d <= (b + d / 2) / d) by (nonlinear_arith)
            requires d > 0, a <= b, a >= 0;
    } else if b < 0 {
        assert((-b + d / 2) / d <= (-a + d / 2) / d) by (nonlinear_arith)
            requires d > 0, a <= b, b < 0;
    } else {
        assert((-a + d / 2) / d >= 0) by (nonlinear_arith) requires d > 0, a < 0;
        assert((b + d / 2) / d >= 0) by (nonlinear_arith) requires d > 0, b >= 0;
    }
}

/// Con IVA exento (0 %), informar el costo "sin IVA" o "con IVA" da el mismo
/// precio: el IVA no altera la base.
pub proof fn ley_iva_exento_no_altera_base(costo: int, iva_cualquiera: int, markup: int)
    ensures
        precio_final(costo, false, 0, markup) == precio_final(costo, true, iva_cualquiera, markup),
{
    assert(costo * (10000 + 0) * (10000 + markup) == (costo * (10000 + markup)) * 10000) by (nonlinear_arith);
    lema_redondeo_escalado(costo * (10000 + markup), 10000, 10000);
}

/// Sin markup, el precio final es exactamente el costo normalizado con IVA
/// que se guarda en el historial.
pub proof fn ley_sin_markup_el_precio_es_el_costo_con_iva(costo: int, incluye_iva: bool, iva: int)
    ensures
        precio_final(costo, incluye_iva, iva, 0) == costo_con_iva(costo, incluye_iva, iva),
{
    if incluye_iva {
        assert(costo * (10000 + 0) == costo * 10000);
        if costo >= 0 {
            assert((costo * 10000 + 5000) / 10000 == costo) by (nonlinear_arith) requires costo >= 0;
        } else {
            assert(costo * 10000 < 0) by (nonlinear_arith) requires costo < 0;
            assert((-(costo * 10000) + 5000) / 10000 == -costo) by (nonlinear_arith) requires costo < 0;
        }
    } else {
        assert(costo * (10000 + iva) * (10000 + 0) == (costo * (10000 + iva)) * 10000) by (nonlinear_arith);
        lema_redondeo_escalado(costo * (10000 + iva), 10000, 10000);
    }
}

/// A mayor costo, mayor (o igual) precio final, con IVA y markup no negativos.
pub proof fn ley_precio_monotono_en_el_costo(c1: int, c2: int, incluye_iva: bool, iva: int, markup: int)
    requires
        c1 <= c2,
        iva >= 0,
        markup >= 0,
    ensures
        precio_final(c1, incluye_iva, iva, markup) <= precio_final(c2, incluye_iva, iva, markup),
{
    assert(c1 * (10000 + markup) <= c2 * (10000 + markup)) by (nonlinear_arith)
        requires c1 <= c2, markup >= 0;
    assert(c1 * (10000 + iva) * (10000 + markup) <= c2 * (10000 + iva) * (10000 + markup)) by (nonlinear_arith)
        requires c1 <= c2, iva >= 0, markup >= 0;
    lema_redondeo_monotono(c1 * (10000 + markup), c2 * (10000 + markup), 10000);
    lema_redondeo_monotono(c1 * (10000 + iva) * (10000 + markup), c2 * (10000 + iva) * (10000 + markup), 100000000);
}

/// Redondear un precio ya redondeado no lo cambia.
pub proof fn ley_redondeo_comercial_idempotente(precio: int, multiplo: int)
    ensures
        redondeo_a_multiplo(redondeo_a_multiplo(precio, multiplo), multiplo)
            == redondeo_a_multiplo(precio, multiplo),
{
    if multiplo > 1 && precio > 0 {
        let m = multiplo;
        let q = (precio + m / 2) / m;
        if q * m != 0 {
            assert(q > 0) by (nonlinear_arith) requires m > 1, precio > 0, q == (precio + m / 2) / m, q * m != 0;
            assert((q * m + m / 2) / m == q) by (nonlinear_arith) requires m > 1, q > 0;
            assert(q * m > 0) by (nonlinear_arith) requires m > 1, q > 0;
        }
    }
}

} // verus!
