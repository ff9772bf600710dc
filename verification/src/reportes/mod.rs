//! Reportes de gestión y consultas paginadas: límites, rango de fechas por
//! defecto y los totales que se calculan sobre lo que devuelve la base.

use vstd::prelude::*;
use crate::aritmetica::entra_en_i64;

verus! {

/// Un límite pedido, o el de defecto, llevado al rango [mínimo, máximo].
pub open spec fn limite_resuelto(pedido: Option<i64>, defecto: i64, minimo: i64, maximo: i64) -> i64 {
    let v = match pedido {
        Some(v) => v,
        None => defecto,
    };
    if v < minimo {
        minimo
    } else if v > maximo {
        maximo
    } else {
        v
    }
}

/// Límite de una consulta: el pedido o el de defecto, acotado.
pub fn resolver_limite(pedido: Option<i64>, defecto: i64, minimo: i64, maximo: i64) -> (r: i64)
    requires
        minimo <= maximo,
    ensures
        r == limite_resuelto(pedido, defecto, minimo, maximo),
        minimo <= r <= maximo,
{
    let v = match pedido {
        Some(v) => v,
        None => defecto,
    };
    if v < minimo {
        minimo
    } else if v > maximo {
        maximo
    } else {
        v
    }
}

/// Desplazamiento de una consulta paginada: el pedido, nunca negativo.
pub fn resolver_offset(pedido: Option<i64>) -> (r: i64)
    ensures
        r == match pedido {
            Some(v) => if v < 0 { 0 } else { v },
            None => 0,
        },
        r >= 0,
{
    match pedido {
        Some(v) => if v < 0 {
            0
        } else {
            v
        },
        None => 0,
    }
}

/// Página de resultados: se piden `limite + 1` filas para saber si hay otra
/// página; se devuelven a lo sumo `limite`.
pub fn pagina(filas_leidas: usize, limite: i64) -> (r: (bool, usize))
    requires
        limite >= 1,
    ensures
        r.0 == (filas_leidas > limite),
        r.1 == if filas_leidas > limite { limite as int } else { filas_leidas as int },
{
    if (filas_leidas as u128) > (limite as u128) {
        (true, limite as usize)
    } else {
        (false, filas_leidas)
    }
}

/// Rango de fechas de un reporte (días numerados): por defecto los últimos
/// 30 días hasta hoy, ambos extremos inclusive.
pub open spec fn rango_resuelto(desde: Option<i32>, hasta: Option<i32>, hoy: i32) -> (int, int) {
    let h = match hasta {
        Some(h) => h as int,
        None => hoy as int,
    };
    let d = match desde {
        Some(d) => d as int,
        None => h - 29,
    };
    (d, h)
}

/// Resuelve el rango de fechas de un reporte.
pub fn resolver_rango(desde: Option<i32>, hasta: Option<i32>, hoy: i32) -> (r: (i32, i32))
    requires
        desde is None ==> match hasta {
            Some(h) => h >= i32::MIN + 29,
            None => hoy >= i32::MIN + 29,
        },
    ensures
        (r.0 as int, r.1 as int) == rango_resuelto(desde, hasta, hoy),
{
    let h = match hasta {
        Some(h) => h,
        None => hoy,
    };
    let d = match desde {
        Some(d) => d,
        None => h - 29,
    };
    (d, h)
}

/// División entera truncada hacia cero (la de los enteros de la máquina).
pub open spec fn division_truncada(a: int, b: int) -> int {
    if a >= 0 {
        a / b
    } else {
        -((-a) / b)
    }
}

/// Ticket promedio: facturado / tickets (0 sin tickets).
pub fn ticket_promedio(facturado_centavos: i64, tickets: i64) -> (r: i64)
    ensures
        tickets > 0 ==> r == division_truncada(facturado_centavos as int, tickets as int),
        tickets <= 0 ==> r == 0,
{
    if tickets <= 0 {
        return 0;
    }
    let a: i128 = facturado_centavos as i128;
    let b: i128 = tickets as i128;
    if a >= 0 {
        (a / b) as i64
    } else {
        let q: i128 = (-a) / b;
        assert(q <= -a);
        (-q) as i64
    }
}

/// Margen del período a costo actual: facturado − costo de lo vendido.
pub fn margen_centavos(facturado_centavos: i64, costo_centavos: i64) -> (r: i64)
    requires
        entra_en_i64(facturado_centavos - costo_centavos),
    ensures
        r == facturado_centavos - costo_centavos,
{
    facturado_centavos - costo_centavos
}

/// Σ de los montos.
pub open spec fn suma_montos(v: Seq<i64>) -> int
    decreases v.len(),
{
    if v.len() == 0 {
        0
    } else {
        suma_montos(v.drop_last()) + v.last()
    }
}

/// Cada suma parcial entra en 64 bits.
pub open spec fn montos_sumables(v: Seq<i64>) -> bool {
    forall|i: int| 0 <= i <= v.len() ==> entra_en_i64(#[trigger] suma_montos(v.take(i)))
}

/// Total de un reporte (mermas por motivo, compras por proveedor).
pub fn sumar_montos(v: &Vec<i64>) -> (r: i64)
    requires
        montos_sumables(v@),
    ensures
        r == suma_montos(v@),
{
    let mut s: i64 = 0;
    let mut i: usize = 0;
    assert(v@.take(0) =~= Seq::<i64>::empty());
    while i < v.len()
        invariant
            0 <= i <= v@.len(),
            montos_sumables(v@),
            s == suma_montos(v@.take(i as int)),
        decreases v@.len() - i,
    {
        assert(v@.take(i + 1).drop_last() =~= v@.take(i as int));
        assert(entra_en_i64(suma_montos(v@.take(i + 1))));
        s = s + v[i];
        i = i + 1;
    }
    assert(v@.take(v@.len() as int) =~= v@);
    s
}

/// Diferencias de arqueo registradas (sin registrar cuenta como cero).
pub open spec fn diferencias(v: Seq<Option<i64>>) -> Seq<i64> {
    Seq::new(v.len(), |i: int| match v[i] {
        Some(d) => d,
        None => 0i64,
    })
}

/// Cantidad de sesiones con diferencia distinta de cero.
pub open spec fn con_diferencia(v: Seq<Option<i64>>) -> nat
    decreases v.len(),
{
    if v.len() == 0 {
        0
    } else {
        con_diferencia(v.drop_last()) + if v.last() matches Some(d) && d != 0 {
            1nat
        } else {
            0nat
        }
    }
}

/// Resumen de arqueos: el acumulado de las diferencias de las sesiones
/// listadas y cuántas tuvieron diferencia. Una diferencia aislada es un
/// evento; un acumulado sostenido es una señal.
pub fn resumen_arqueos(v: &Vec<Option<i64>>) -> (r: (i64, usize))
    requires
        montos_sumables(diferencias(v@)),
    ensures
        r.0 == suma_montos(diferencias(v@)),
        r.1 == con_diferencia(v@),
{
    let ghost d = diferencias(v@);
    let mut s: i64 = 0;
    let mut n: usize = 0;
    let mut i: usize = 0;
    assert(d.take(0) =~= Seq::<i64>::empty());
    assert(v@.take(0) =~= Seq::<Option<i64>>::empty());
    while i < v.len()
        invariant
            0 <= i <= v@.len(),
            d == diferencias(v@),
            montos_sumables(d),
            s == suma_montos(d.take(i as int)),
            n == con_diferencia(v@.take(i as int)),
            n <= i,
        decreases v@.len() - i,
    {
        assert(d.take(i + 1).drop_last() =~= d.take(i as int));
        assert(v@.take(i + 1).drop_last() =~= v@.take(i as int));
        assert(entra_en_i64(suma_montos(d.take(i + 1))));
        let x: i64 = match v[i] {
            Some(x) => x,
            None => 0,
        };
        s = s + x;
        if x != 0 {
            n = n + 1;
        }
        i = i + 1;
    }
    assert(d.take(v@.len() as int) =~= d);
    assert(v@.take(v@.len() as int) =~= v@);
    (s, n)
}

} // verus!
