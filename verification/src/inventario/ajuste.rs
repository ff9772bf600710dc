//! Documento de ajuste de inventario: cada ítem lleva un delta con signo o
//! una cantidad contada. A diferencia de las ventas, los ajustes SÍ validan
//! disponibilidad: no pueden dejar ni el lote ni el stock por debajo de cero.

use vstd::prelude::*;
use crate::error::{es_validacion, texto, validacion, ErrorApi};
use crate::inventario::{cantidad_valida, CANTIDAD_MAXIMA};
use crate::texto::{agregar_texto, decimal_escalado, texto_escalado};

verus! {

/// Un ítem del documento de ajuste (cantidades en milésimas).
#[derive(Debug, Clone, Copy, PartialEq, Eq)]
pub struct ItemAjuste {
    pub producto_id: u128,
    pub lote_id: Option<u128>,
    /// Delta con signo (entradas +, salidas −). Excluyente con la cantidad contada.
    pub delta: Option<i64>,
    /// Cantidad física contada: el delta se calcula contra la proyección (del
    /// lote si se indicó, si no del stock del depósito).
    pub cantidad_contada: Option<i64>,
    /// Decimales con que llegó la cantidad del ítem (el delta o la contada),
    /// con los que se la muestra en los mensajes.
    pub escala: u32,
}

/// Lo que la base dice del lote indicado en el ítem.
#[derive(Debug, Clone, Copy, PartialEq, Eq)]
pub struct LoteLeido {
    pub producto_id: u128,
    pub cantidad: i64,
}

/// Movimiento que el ajuste asienta, con el stock en que deja al producto.
#[derive(Debug, Clone, Copy, PartialEq, Eq)]
pub struct MovimientoAplicado {
    pub producto_id: u128,
    pub lote_id: Option<u128>,
    pub delta: i64,
    pub stock_resultante: i64,
}

/// El lote indicado existe y es del producto del ítem.
pub open spec fn lote_del_producto(item: ItemAjuste, lote: Option<LoteLeido>) -> bool {
    lote matches Some(l) && l.producto_id == item.producto_id
}

/// Delta que resulta del ítem: el explícito, o la cantidad contada menos la
/// proyección vigente (la del lote si se indicó, si no la del stock).
pub open spec fn delta_del_item(item: ItemAjuste, lote: Option<LoteLeido>, stock: i64) -> int {
    match item.delta {
        Some(d) => d as int,
        None => item.cantidad_contada.unwrap() - if item.lote_id is Some {
            lote.unwrap().cantidad as int
        } else {
            stock as int
        },
    }
}

/// Decimales con que se muestra el stock leído: tres si el producto tiene
/// fila de stock, ninguno si no (el cero que se asume).
pub open spec fn escala_stock(con_fila: bool) -> nat {
    if con_fila {
        3
    } else {
        0
    }
}

/// Decimales del delta: los del explícito; los de la resta entre lo contado
/// y lo leído (la mayor de las dos escalas; un lote o una fila de stock se
/// leen con tres).
pub open spec fn escala_delta(item: ItemAjuste, stock_con_fila: bool) -> nat {
    if item.delta is Some {
        item.escala as nat
    } else {
        let leida: nat = if item.lote_id is Some { 3 } else { escala_stock(stock_con_fila) };
        if item.escala as nat >= leida {
            item.escala as nat
        } else {
            leida
        }
    }
}

/// Mensaje del rechazo por dejar un lote o el stock en negativo, con cada
/// cantidad mostrada con sus decimales.
pub open spec fn mensaje_negativo(que: Seq<char>, actual: int, escala_actual: nat, delta: int, escala_del_delta: nat) -> Seq<
    char,
> {
    "el ajuste dejaría el "@ + que + " en negativo (actual "@ + decimal_escalado(actual, escala_actual) + ", delta "@
        + decimal_escalado(delta, escala_del_delta) + ")"@
}

fn error_negativo(que: &str, actual: i64, escala_actual: u32, delta: i64, escala_del_delta: u32) -> (r: ErrorApi)
    ensures
        es_validacion(r, mensaje_negativo(que@, actual as int, escala_actual as nat, delta as int, escala_del_delta as nat)),
{
    let mut m = texto("el ajuste dejaría el ");
    agregar_texto(&mut m, que);
    agregar_texto(&mut m, " en negativo (actual ");
    let a = texto_escalado(actual, escala_actual);
    agregar_texto(&mut m, a.as_str());
    agregar_texto(&mut m, ", delta ");
    let d = texto_escalado(delta, escala_del_delta);
    agregar_texto(&mut m, d.as_str());
    agregar_texto(&mut m, ")");
    ErrorApi::Validacion(m)
}

/// Resultado de evaluar un ítem: el movimiento (o ninguno, si un conteo
/// coincide con la proyección) o el mensaje del primer error, en el orden
/// de verificación del documento.
pub open spec fn evaluacion(
    item: ItemAjuste,
    producto_existe: bool,
    lote: Option<LoteLeido>,
    stock: i64,
    stock_con_fila: bool,
) -> Result<
    Option<MovimientoAplicado>,
    Seq<char>,
> {
    if (item.delta is Some) == (item.cantidad_contada is Some) {
        Err("cada ítem lleva delta o cantidad_contada, exactamente uno"@)
    } else if item.delta == Some(0i64) {
        Err("el delta no puede ser cero"@)
    } else if item.cantidad_contada matches Some(c) && c < 0 {
        Err("la cantidad contada no puede ser negativa"@)
    } else if item.delta is None && item.lote_id is Some && lote is None {
        Err("lote inexistente"@)
    } else if item.delta is None && item.lote_id is Some && lote.unwrap().producto_id != item.producto_id {
        Err("el lote no pertenece al producto indicado"@)
    } else {
        let delta = delta_del_item(item, lote, stock);
        if delta == 0 {
            Ok(None)
        } else if !producto_existe {
            Err("producto inexistente"@)
        } else if item.lote_id is Some && lote is None {
            Err("lote inexistente"@)
        } else if item.lote_id is Some && lote.unwrap().producto_id != item.producto_id {
            Err("el lote no pertenece al producto indicado"@)
        } else if item.lote_id is Some && lote.unwrap().cantidad + delta < 0 {
            Err(
                mensaje_negativo(
                    "lote"@,
                    lote.unwrap().cantidad as int,
                    3,
                    delta,
                    escala_delta(item, stock_con_fila),
                ),
            )
        } else if stock + delta < 0 {
            Err(
                mensaje_negativo(
                    "stock"@,
                    stock as int,
                    escala_stock(stock_con_fila),
                    delta,
                    escala_delta(item, stock_con_fila),
                ),
            )
        } else {
            Ok(
                Some(
                    MovimientoAplicado {
                        producto_id: item.producto_id,
                        lote_id: item.lote_id,
                        delta: delta as i64,
                        stock_resultante: (stock + delta) as i64,
                    },
                ),
            )
        }
    }
}

/// Evalúa un ítem de ajuste contra lo que hay en la base: si el producto
/// existe, el lote indicado (si hay) y el stock vigente del depósito.
/// Devuelve el movimiento a asentar, `None` si un conteo coincide con la
/// proyección (no genera movimiento), o el error del ítem, en el mismo orden
/// de verificación del documento.
pub fn evaluar_item_ajuste(
    item: &ItemAjuste,
    producto_existe: bool,
    lote: Option<LoteLeido>,
    stock: i64,
    stock_con_fila: bool,
) -> (r: Result<Option<MovimientoAplicado>, ErrorApi>)
    requires
        cantidad_valida(stock as int),
        item.delta matches Some(d) ==> cantidad_valida(d as int),
        item.cantidad_contada matches Some(c) ==> cantidad_valida(c as int),
        lote matches Some(l) ==> cantidad_valida(l.cantidad as int),
    ensures
        evaluacion(*item, producto_existe, lote, stock, stock_con_fila) matches Ok(x) ==> r == Ok::<Option<MovimientoAplicado>, ErrorApi>(x),
        evaluacion(*item, producto_existe, lote, stock, stock_con_fila) matches Err(m) ==> (r matches Err(e) && es_validacion(e, m)),
        // delta y cantidad contada son excluyentes y obligatorios
        (item.delta is Some) == (item.cantidad_contada is Some) ==> (r matches Err(e) && es_validacion(
            e, "cada ítem lleva delta o cantidad_contada, exactamente uno"@)),
        item.delta == Some(0i64) && item.cantidad_contada is None ==> (r matches Err(e) && es_validacion(
            e, "el delta no puede ser cero"@)),
        item.delta is None && item.cantidad_contada is Some && item.cantidad_contada.unwrap() < 0 ==> (r matches Err(e)
            && es_validacion(e, "la cantidad contada no puede ser negativa"@)),
        // el conteo contra un lote exige que el lote exista y sea del producto
        item.delta is None && item.cantidad_contada is Some && item.cantidad_contada.unwrap() >= 0 && item.lote_id is Some
            && lote is None ==> (r matches Err(e) && es_validacion(e, "lote inexistente"@)),
        item.delta is None && item.cantidad_contada is Some && item.cantidad_contada.unwrap() >= 0 && item.lote_id is Some
            && lote is Some && lote.unwrap().producto_id != item.producto_id ==> (r matches Err(e)
            && es_validacion(e, "el lote no pertenece al producto indicado"@)),
        // si el ítem está bien formado, se calcula el delta
        (item.delta is Some) != (item.cantidad_contada is Some) && item.delta != Some(0i64)
            && (item.cantidad_contada matches Some(c) ==> c >= 0 && (item.lote_id is Some
            ==> lote_del_producto(*item, lote))) ==> {
            let delta = delta_del_item(*item, lote, stock);
            &&& delta == 0 ==> r == Ok::<Option<MovimientoAplicado>, ErrorApi>(None)
            &&& delta != 0 && !producto_existe ==> (r matches Err(e) && es_validacion(e, "producto inexistente"@))
            &&& delta != 0 && producto_existe && item.lote_id is Some && lote is None ==> (r matches Err(e)
                && es_validacion(e, "lote inexistente"@))
            &&& delta != 0 && producto_existe && item.lote_id is Some && lote is Some && lote.unwrap().producto_id
                != item.producto_id ==> (r matches Err(e) && es_validacion(e, "el lote no pertenece al producto indicado"@))
            &&& delta != 0 && producto_existe && item.lote_id is Some && lote_del_producto(*item, lote)
                && lote.unwrap().cantidad + delta < 0 ==> (r matches Err(e) && es_validacion(
                e, mensaje_negativo("lote"@, lote.unwrap().cantidad as int, 3, delta, escala_delta(*item, stock_con_fila))))
            &&& delta != 0 && producto_existe && (item.lote_id is Some ==> lote_del_producto(*item, lote)
                && lote.unwrap().cantidad + delta >= 0) && stock + delta < 0 ==> (r matches Err(e)
                && es_validacion(e, mensaje_negativo("stock"@, stock as int, escala_stock(stock_con_fila), delta,
                escala_delta(*item, stock_con_fila))))
            &&& delta != 0 && producto_existe && (item.lote_id is Some ==> lote_del_producto(*item, lote)
                && lote.unwrap().cantidad + delta >= 0) && stock + delta >= 0 ==> r == Ok::<
                Option<MovimientoAplicado>,
                ErrorApi,
            >(
                Some(
                    MovimientoAplicado {
                        producto_id: item.producto_id,
                        lote_id: item.lote_id,
                        delta: delta as i64,
                        stock_resultante: (stock + delta) as i64,
                    },
                ),
            )
        },
        // un ajuste aplicado nunca deja el stock ni el lote en negativo
        r matches Ok(Some(m)) ==> m.stock_resultante >= 0 && m.delta != 0
            && (m.lote_id is Some ==> lote.unwrap().cantidad + m.delta >= 0),
{
    let delta: i64 = match (item.delta, item.cantidad_contada) {
        (Some(d), None) => {
            if d == 0 {
                return Err(validacion("el delta no puede ser cero"));
            }
            d
        },
        (None, Some(contada)) => {
            if contada < 0 {
                return Err(validacion("la cantidad contada no puede ser negativa"));
            }
            let actual = match item.lote_id {
                Some(_) => match lote {
                    None => {
                        return Err(validacion("lote inexistente"));
                    },
                    Some(l) => {
                        if l.producto_id != item.producto_id {
                            return Err(validacion("el lote no pertenece al producto indicado"));
                        }
                        l.cantidad
                    },
                },
                None => stock,
            };
            contada - actual
        },
        _ => {
            return Err(validacion("cada ítem lleva delta o cantidad_contada, exactamente uno"));
        },
    };
    let escala_leida: u32 = if item.lote_id.is_some() || stock_con_fila {
        3
    } else {
        0
    };
    let escala_del_delta: u32 = if item.delta.is_some() || item.escala >= escala_leida {
        item.escala
    } else {
        escala_leida
    };
    let escala_actual_stock: u32 = if stock_con_fila {
        3
    } else {
        0
    };
    // Un conteo que coincide con la proyección no genera movimiento.
    if delta == 0 {
        return Ok(None);
    }
    if !producto_existe {
        return Err(validacion("producto inexistente"));
    }
    if item.lote_id.is_some() {
        match lote {
            None => {
                return Err(validacion("lote inexistente"));
            },
            Some(l) => {
                if l.producto_id != item.producto_id {
                    return Err(validacion("el lote no pertenece al producto indicado"));
                }
                if l.cantidad + delta < 0 {
                    return Err(error_negativo("lote", l.cantidad, 3, delta, escala_del_delta));
                }
            },
        }
    }
    if stock + delta < 0 {
        return Err(error_negativo("stock", stock, escala_actual_stock, delta, escala_del_delta));
    }
    Ok(
        Some(
            MovimientoAplicado {
                producto_id: item.producto_id,
                lote_id: item.lote_id,
                delta,
                stock_resultante: stock + delta,
            },
        ),
    )
}

/// Un documento de ajuste debe traer al menos un ítem.
pub fn validar_documento_ajuste(items: &Vec<ItemAjuste>) -> (r: Result<(), ErrorApi>)
    ensures
        r is Ok <==> items@.len() > 0,
        r matches Err(e) ==> es_validacion(e, "el ajuste no tiene ítems"@),
{
    if items.len() == 0 {
        Err(validacion("el ajuste no tiene ítems"))
    } else {
        Ok(())
    }
}


/// Stock vigente de un producto del catálogo en el depósito (0 si nunca
/// tuvo movimientos).
#[derive(Debug, Clone, Copy, PartialEq, Eq, Structural)]
pub struct ProductoEnStock {
    pub producto_id: u128,
    pub stock: i64,
    /// Tiene fila de stock en la base; sin fila el stock es el cero que se asume.
    pub con_fila: bool,
}

/// Un lote con su cantidad vigente.
#[derive(Debug, Clone, Copy, PartialEq, Eq, Structural)]
pub struct LoteEnStock {
    pub id: u128,
    pub producto_id: u128,
    pub cantidad: i64,
}

/// Las existencias que un documento de ajuste puede tocar: los productos
/// que existen en el catálogo y los lotes que existen.
#[derive(Debug, Clone)]
pub struct Existencias {
    pub productos: Vec<ProductoEnStock>,
    pub lotes: Vec<LoteEnStock>,
}

/// Identificadores distintos y cantidades que entran en NUMERIC(12,3).
pub open spec fn existencias_validas(ps: Seq<ProductoEnStock>, ls: Seq<LoteEnStock>) -> bool {
    &&& forall|i: int, j: int| 0 <= i < ps.len() && 0 <= j < ps.len() && i != j ==> (#[trigger] ps[i]).producto_id
        != (#[trigger] ps[j]).producto_id
    &&& forall|i: int, j: int| 0 <= i < ls.len() && 0 <= j < ls.len() && i != j ==> (#[trigger] ls[i]).id != (
    #[trigger] ls[j]).id
    &&& forall|i: int| 0 <= i < ps.len() ==> cantidad_valida((#[trigger] ps[i]).stock as int)
    &&& forall|i: int| 0 <= i < ls.len() ==> cantidad_valida((#[trigger] ls[i]).cantidad as int)
}

/// El producto existe.
pub open spec fn existe_producto(ps: Seq<ProductoEnStock>, p: u128) -> bool {
    exists|k: int| 0 <= k < ps.len() && (#[trigger] ps[k]).producto_id == p
}

/// Posición del producto.
pub open spec fn pos_producto(ps: Seq<ProductoEnStock>, p: u128) -> int {
    choose|k: int| 0 <= k < ps.len() && (#[trigger] ps[k]).producto_id == p
}

/// Stock del producto (0 si no existe).
pub open spec fn stock_de(ps: Seq<ProductoEnStock>, p: u128) -> i64 {
    if existe_producto(ps, p) {
        ps[pos_producto(ps, p)].stock
    } else {
        0
    }
}

/// El producto tiene fila de stock.
pub open spec fn con_fila_de(ps: Seq<ProductoEnStock>, p: u128) -> bool {
    existe_producto(ps, p) && ps[pos_producto(ps, p)].con_fila
}

/// El lote existe.
pub open spec fn existe_lote(ls: Seq<LoteEnStock>, id: u128) -> bool {
    exists|k: int| 0 <= k < ls.len() && (#[trigger] ls[k]).id == id
}

/// Posición del lote.
pub open spec fn pos_lote(ls: Seq<LoteEnStock>, id: u128) -> int {
    choose|k: int| 0 <= k < ls.len() && (#[trigger] ls[k]).id == id
}

/// Lo que la base devuelve al leer el lote indicado en un ítem.
pub open spec fn lote_leido(ls: Seq<LoteEnStock>, lote_id: Option<u128>) -> Option<LoteLeido> {
    match lote_id {
        Some(id) => if existe_lote(ls, id) {
            Some(LoteLeido { producto_id: ls[pos_lote(ls, id)].producto_id, cantidad: ls[pos_lote(ls, id)].cantidad })
        } else {
            None
        },
        None => None,
    }
}

/// Un paso del documento: evaluar el ítem contra las existencias vigentes y,
/// si genera movimiento, aplicarlo. `Err(None)` si la cantidad resultante no
/// entra en la columna.
pub open spec fn paso_ajuste(ps: Seq<ProductoEnStock>, ls: Seq<LoteEnStock>, item: ItemAjuste) -> Result<
    (Option<MovimientoAplicado>, Seq<ProductoEnStock>, Seq<LoteEnStock>),
    Option<Seq<char>>,
> {
    let p = item.producto_id;
    let lote = lote_leido(ls, item.lote_id);
    match evaluacion(item, existe_producto(ps, p), lote, stock_de(ps, p), con_fila_de(ps, p)) {
        Err(m) => Err(Some(m)),
        Ok(None) => Ok((None, ps, ls)),
        Ok(Some(m)) => {
            let k = pos_producto(ps, p);
            let nuevo_stock = ps[k].stock + m.delta;
            if !cantidad_valida(nuevo_stock) || (item.lote_id is Some && !cantidad_valida(
                lote.unwrap().cantidad + m.delta,
            )) {
                Err(None)
            } else {
                let ps2 = ps.update(k, ProductoEnStock { producto_id: p, stock: nuevo_stock as i64, con_fila: true });
                let ls2 = match item.lote_id {
                    Some(id) => {
                        let j = pos_lote(ls, id);
                        ls.update(
                            j,
                            LoteEnStock { id, producto_id: ls[j].producto_id, cantidad: (ls[j].cantidad + m.delta) as i64 },
                        )
                    },
                    None => ls,
                };
                Ok((Some(m), ps2, ls2))
            }
        },
    }
}

/// El documento entero, ítem por ítem y en orden, sobre las existencias
/// que van quedando: los movimientos y las existencias finales, o el primer
/// error.
pub open spec fn aplicar_ajuste(ps: Seq<ProductoEnStock>, ls: Seq<LoteEnStock>, items: Seq<ItemAjuste>) -> Result<
    (Seq<MovimientoAplicado>, Seq<ProductoEnStock>, Seq<LoteEnStock>),
    Option<Seq<char>>,
>
    decreases items.len(),
{
    if items.len() == 0 {
        Ok((Seq::empty(), ps, ls))
    } else {
        match aplicar_ajuste(ps, ls, items.drop_last()) {
            Err(e) => Err(e),
            Ok((movs, ps1, ls1)) => match paso_ajuste(ps1, ls1, items.last()) {
                Err(e) => Err(e),
                Ok((None, ps2, ls2)) => Ok((movs, ps2, ls2)),
                Ok((Some(m), ps2, ls2)) => Ok((movs.push(m), ps2, ls2)),
            },
        }
    }
}

/// Cantidades de los ítems que entran en NUMERIC(12,3).
pub open spec fn items_validos(items: Seq<ItemAjuste>) -> bool {
    forall|i: int| 0 <= i < items.len() ==> {
        &&& (#[trigger] items[i]).delta matches Some(d) ==> cantidad_valida(d as int)
        &&& items[i].cantidad_contada matches Some(c) ==> cantidad_valida(c as int)
    }
}

proof fn lema_aplicar_preserva(ps: Seq<ProductoEnStock>, ls: Seq<LoteEnStock>, item: ItemAjuste)
    requires
        existencias_validas(ps, ls),
        paso_ajuste(ps, ls, item) is Ok,
    ensures
        existencias_validas(paso_ajuste(ps, ls, item)->Ok_0.1, paso_ajuste(ps, ls, item)->Ok_0.2),
{
    let (m, ps2, ls2) = paso_ajuste(ps, ls, item)->Ok_0;
    if m is Some {
        let k = pos_producto(ps, item.producto_id);
        assert forall|i: int, j: int| 0 <= i < ps2.len() && 0 <= j < ps2.len() && i != j implies (
        #[trigger] ps2[i]).producto_id != (#[trigger] ps2[j]).producto_id by {
            assert(ps2[i].producto_id == ps[i].producto_id);
            assert(ps2[j].producto_id == ps[j].producto_id);
        }
        assert forall|i: int| 0 <= i < ps2.len() implies cantidad_valida((#[trigger] ps2[i]).stock as int) by {
            if i != k {
                assert(ps2[i] == ps[i]);
            }
        }
        if item.lote_id is Some {
            let j0 = pos_lote(ls, item.lote_id.unwrap());
            assert forall|i: int, j: int| 0 <= i < ls2.len() && 0 <= j < ls2.len() && i != j implies (
            #[trigger] ls2[i]).id != (#[trigger] ls2[j]).id by {
                assert(ls2[i].id == ls[i].id);
                assert(ls2[j].id == ls[j].id);
            }
            assert forall|i: int| 0 <= i < ls2.len() implies cantidad_valida((#[trigger] ls2[i]).cantidad as int) by {
                if i != j0 {
                    assert(ls2[i] == ls[i]);
                }
            }
        }
    }
}

proof fn lema_error_prefijo_ajuste(ps: Seq<ProductoEnStock>, ls: Seq<LoteEnStock>, items: Seq<ItemAjuste>, n: int)
    requires
        0 <= n <= items.len(),
        aplicar_ajuste(ps, ls, items.take(n)) is Err,
    ensures
        aplicar_ajuste(ps, ls, items) == aplicar_ajuste(ps, ls, items.take(n)),
    decreases items.len() - n,
{
    if n < items.len() {
        assert(items.take(n + 1).drop_last() =~= items.take(n));
        lema_error_prefijo_ajuste(ps, ls, items, n + 1);
    } else {
        assert(items.take(n) =~= items);
    }
}

fn buscar_producto(ps: &Vec<ProductoEnStock>, p: u128) -> (r: Option<usize>)
    requires
        existencias_validas(ps@, Seq::empty()),
    ensures
        r is None <==> !existe_producto(ps@, p),
        r matches Some(k) ==> k == pos_producto(ps@, p) && k < ps@.len(),
{
    let mut k: usize = 0;
    while k < ps.len()
        invariant
            0 <= k <= ps@.len(),
            existencias_validas(ps@, Seq::empty()),
            forall|j: int| 0 <= j < k ==> (#[trigger] ps@[j]).producto_id != p,
        decreases ps@.len() - k,
    {
        if ps[k].producto_id == p {
            proof {
                assert(ps@[k as int].producto_id == p);
                let j = pos_producto(ps@, p);
                assert(0 <= j < ps@.len() && ps@[j].producto_id == p);
                if j != k {
                    assert(ps@[j].producto_id != ps@[k as int].producto_id);
                }
            }
            return Some(k);
        }
        k = k + 1;
    }
    None
}

fn buscar_lote(ls: &Vec<LoteEnStock>, id: u128) -> (r: Option<usize>)
    requires
        existencias_validas(Seq::empty(), ls@),
    ensures
        r is None <==> !existe_lote(ls@, id),
        r matches Some(k) ==> k == pos_lote(ls@, id) && k < ls@.len(),
{
    let mut k: usize = 0;
    while k < ls.len()
        invariant
            0 <= k <= ls@.len(),
            existencias_validas(Seq::empty(), ls@),
            forall|j: int| 0 <= j < k ==> (#[trigger] ls@[j]).id != id,
        decreases ls@.len() - k,
    {
        if ls[k].id == id {
            proof {
                assert(ls@[k as int].id == id);
                let j = pos_lote(ls@, id);
                assert(0 <= j < ls@.len() && ls@[j].id == id);
                if j != k {
                    assert(ls@[j].id != ls@[k as int].id);
                }
            }
            return Some(k);
        }
        k = k + 1;
    }
    None
}

fn copiar_productos(v: &Vec<ProductoEnStock>) -> (r: Vec<ProductoEnStock>)
    ensures
        r@ == v@,
{
    let mut r: Vec<ProductoEnStock> = Vec::new();
    let mut i: usize = 0;
    while i < v.len()
        invariant
            0 <= i <= v@.len(),
            r@ == v@.take(i as int),
        decreases v@.len() - i,
    {
        r.push(v[i]);
        assert(v@.take(i + 1) =~= v@.take(i as int).push(v@[i as int]));
        i = i + 1;
    }
    assert(v@.take(v@.len() as int) =~= v@);
    r
}

fn copiar_lotes(v: &Vec<LoteEnStock>) -> (r: Vec<LoteEnStock>)
    ensures
        r@ == v@,
{
    let mut r: Vec<LoteEnStock> = Vec::new();
    let mut i: usize = 0;
    while i < v.len()
        invariant
            0 <= i <= v@.len(),
            r@ == v@.take(i as int),
        decreases v@.len() - i,
    {
        r.push(v[i]);
        assert(v@.take(i + 1) =~= v@.take(i as int).push(v@[i as int]));
        i = i + 1;
    }
    assert(v@.take(v@.len() as int) =~= v@);
    r
}

/// Aplica un documento de ajuste, ítem por ítem y en orden, sobre las
/// existencias: todo o nada. Devuelve los movimientos a asentar; si algún
/// ítem falla, las existencias quedan como estaban.
pub fn aplicar_documento_ajuste(items: &Vec<ItemAjuste>, existencias: &mut Existencias) -> (r: Result<
    Vec<MovimientoAplicado>,
    ErrorApi,
>)
    requires
        existencias_validas(old(existencias).productos@, old(existencias).lotes@),
        items_validos(items@),
    ensures
        existencias_validas(final(existencias).productos@, final(existencias).lotes@),
        r is Err ==> final(existencias).productos@ == old(existencias).productos@ && final(existencias).lotes@ == old(
            existencias,
        ).lotes@,
        aplicar_ajuste(old(existencias).productos@, old(existencias).lotes@, items@) matches Ok((movs, ps, ls)) ==> (
        r matches Ok(v) && v@ == movs && final(existencias).productos@ == ps && final(existencias).lotes@ == ls),
        aplicar_ajuste(old(existencias).productos@, old(existencias).lotes@, items@) matches Err(Some(m)) ==> (
        r matches Err(e) && es_validacion(e, m)),
        aplicar_ajuste(old(existencias).productos@, old(existencias).lotes@, items@) matches Err(None) ==> (
        r matches Err(e) && e is Interno),
{
    let mut ps = copiar_productos(&existencias.productos);
    let mut ls = copiar_lotes(&existencias.lotes);
    let ghost ps0 = ps@;
    let ghost ls0 = ls@;
    let mut movs: Vec<MovimientoAplicado> = Vec::new();
    let mut i: usize = 0;
    assert(items@.take(0) =~= Seq::<ItemAjuste>::empty());
    while i < items.len()
        invariant
            0 <= i <= items@.len(),
            items_validos(items@),
            ps0 == old(existencias).productos@,
            ls0 == old(existencias).lotes@,
            existencias_validas(ps0, ls0),
            existencias.productos@ == ps0,
            existencias.lotes@ == ls0,
            existencias_validas(ps@, ls@),
            aplicar_ajuste(ps0, ls0, items@.take(i as int)) == Ok::<
                (Seq<MovimientoAplicado>, Seq<ProductoEnStock>, Seq<LoteEnStock>),
                Option<Seq<char>>,
            >((movs@, ps@, ls@)),
        decreases items@.len() - i,
    {
        let item = items[i];
        assert(items@.take(i + 1).drop_last() =~= items@.take(i as int));
        assert(items@.take(i + 1).last() == item);
        let ghost prev_ps = ps@;
        let ghost prev_ls = ls@;
        let kp = buscar_producto(&ps, item.producto_id);
        let stock: i64 = match kp {
            Some(k) => ps[k].stock,
            None => 0,
        };
        let con_fila: bool = match kp {
            Some(k) => ps[k].con_fila,
            None => false,
        };
        let lote: Option<LoteLeido> = match item.lote_id {
            Some(id) => match buscar_lote(&ls, id) {
                Some(j) => Some(LoteLeido { producto_id: ls[j].producto_id, cantidad: ls[j].cantidad }),
                None => None,
            },
            None => None,
        };
        proof {
            assert(lote == lote_leido(prev_ls, item.lote_id));
            assert(stock == stock_de(prev_ps, item.producto_id));
            assert(con_fila == con_fila_de(prev_ps, item.producto_id));
            if kp is Some {
                assert(cantidad_valida(prev_ps[kp.unwrap() as int].stock as int));
            }
            if lote is Some {
                let j = pos_lote(prev_ls, item.lote_id.unwrap());
                assert(cantidad_valida(prev_ls[j].cantidad as int));
            }
            assert(items@[i as int] == item);
        }
        let evaluado = evaluar_item_ajuste(&item, kp.is_some(), lote, stock, con_fila);
        match evaluado {
            Err(e) => {
                proof {
                    lema_error_prefijo_ajuste(ps0, ls0, items@, i + 1);
                }
                return Err(e);
            },
            Ok(None) => {},
            Ok(Some(m)) => {
                let k = kp.unwrap();
                let nuevo_stock = ps[k].stock + m.delta;
                if nuevo_stock < -CANTIDAD_MAXIMA || nuevo_stock > CANTIDAD_MAXIMA {
                    proof {
                        lema_error_prefijo_ajuste(ps0, ls0, items@, i + 1);
                    }
                    return Err(ErrorApi::Interno(texto("cantidad fuera del rango de NUMERIC(12,3)")));
                }
                match item.lote_id {
                    Some(id) => {
                        let l = lote.unwrap();
                        let nueva = l.cantidad + m.delta;
                        if nueva < -CANTIDAD_MAXIMA || nueva > CANTIDAD_MAXIMA {
                            proof {
                                lema_error_prefijo_ajuste(ps0, ls0, items@, i + 1);
                            }
                            return Err(ErrorApi::Interno(texto("cantidad fuera del rango de NUMERIC(12,3)")));
                        }
                        let j = buscar_lote(&ls, id).unwrap();
                        let pl = ls[j].producto_id;
                        ls.set(j, LoteEnStock { id, producto_id: pl, cantidad: nueva });
                    },
                    None => {},
                }
                ps.set(k, ProductoEnStock { producto_id: item.producto_id, stock: nuevo_stock, con_fila: true });
                movs.push(m);
            },
        }
        proof {
            lema_aplicar_preserva(prev_ps, prev_ls, item);
        }
        i = i + 1;
    }
    assert(items@.take(items@.len() as int) =~= items@);
    existencias.productos = ps;
    existencias.lotes = ls;
    Ok(movs)
}


proof fn lema_aplicar_ajuste_valido(ps: Seq<ProductoEnStock>, ls: Seq<LoteEnStock>, items: Seq<ItemAjuste>)
    requires
        existencias_validas(ps, ls),
        aplicar_ajuste(ps, ls, items) is Ok,
    ensures
        existencias_validas(aplicar_ajuste(ps, ls, items)->Ok_0.1, aplicar_ajuste(ps, ls, items)->Ok_0.2),
    decreases items.len(),
{
    if items.len() > 0 {
        lema_aplicar_ajuste_valido(ps, ls, items.drop_last());
        let (movs, ps1, ls1) = aplicar_ajuste(ps, ls, items.drop_last())->Ok_0;
        lema_aplicar_preserva(ps1, ls1, items.last());
    }
}

/// Un conteo físico se compara con la cantidad vigente de lo que se contó:
/// la del lote, si el ítem indica un lote del producto; si no, el stock del
/// producto. Si coinciden no hay movimiento; si no, el movimiento es lo
/// contado menos esa cantidad.
pub proof fn ley_conteo_contra_lo_contado(
    item: ItemAjuste,
    producto_existe: bool,
    lote: Option<LoteLeido>,
    stock: i64,
    stock_con_fila: bool,
)
    requires
        item.delta is None,
        item.cantidad_contada is Some,
        item.cantidad_contada.unwrap() >= 0,
        item.lote_id is Some ==> lote_del_producto(item, lote),
        cantidad_valida(item.cantidad_contada.unwrap() as int),
        cantidad_valida(stock as int),
        lote matches Some(l) ==> cantidad_valida(l.cantidad as int),
    ensures
        item.lote_id is Some && item.cantidad_contada.unwrap() == lote.unwrap().cantidad ==> evaluacion(
            item,
            producto_existe,
            lote,
            stock,
            stock_con_fila,
        ) == Ok::<Option<MovimientoAplicado>, Seq<char>>(None),
        item.lote_id is Some ==> (evaluacion(item, producto_existe, lote, stock, stock_con_fila) matches Ok(Some(m))
            ==> m.delta == item.cantidad_contada.unwrap() - lote.unwrap().cantidad),
        item.lote_id is None && item.cantidad_contada.unwrap() == stock ==> evaluacion(
            item,
            producto_existe,
            lote,
            stock,
            stock_con_fila,
        ) == Ok::<Option<MovimientoAplicado>, Seq<char>>(None),
        item.lote_id is None ==> (evaluacion(item, producto_existe, lote, stock, stock_con_fila) matches Ok(Some(m))
            ==> m.delta == item.cantidad_contada.unwrap() - stock),
{
}

/// Un documento de ajuste aplicado nunca deja el stock del depósito en
/// negativo: cada movimiento que asienta deja su producto en cero o más, y
/// ningún movimiento es nulo.
pub proof fn ley_ajuste_nunca_deja_negativo(ps: Seq<ProductoEnStock>, ls: Seq<LoteEnStock>, items: Seq<ItemAjuste>)
    requires
        existencias_validas(ps, ls),
        items_validos(items),
        aplicar_ajuste(ps, ls, items) is Ok,
    ensures
        forall|i: int|
            0 <= i < aplicar_ajuste(ps, ls, items)->Ok_0.0.len() ==> (#[trigger] aplicar_ajuste(ps, ls, items)->Ok_0.0[i]).stock_resultante
                >= 0 && aplicar_ajuste(ps, ls, items)->Ok_0.0[i].delta != 0,
    decreases items.len(),
{
    if items.len() > 0 {
        let anteriores = items.drop_last();
        assert forall|i: int| 0 <= i < anteriores.len() implies {
            &&& (#[trigger] anteriores[i]).delta matches Some(d) ==> cantidad_valida(d as int)
            &&& anteriores[i].cantidad_contada matches Some(c) ==> cantidad_valida(c as int)
        } by {
            assert(anteriores[i] == items[i]);
        }
        let previo = aplicar_ajuste(ps, ls, anteriores);
        ley_ajuste_nunca_deja_negativo(ps, ls, anteriores);
        lema_aplicar_ajuste_valido(ps, ls, anteriores);
        let (movs, ps1, ls1) = previo->Ok_0;
        let it = items.last();
        assert(it == items[items.len() - 1]);
        let paso = paso_ajuste(ps1, ls1, it);
        if paso->Ok_0.0 is Some {
            let m = paso->Ok_0.0.unwrap();
            let p = it.producto_id;
            let lote = lote_leido(ls1, it.lote_id);
            if existe_producto(ps1, p) {
                let k = pos_producto(ps1, p);
                assert(cantidad_valida(ps1[k].stock as int));
            }
            if it.lote_id is Some && existe_lote(ls1, it.lote_id.unwrap()) {
                let j = pos_lote(ls1, it.lote_id.unwrap());
                assert(cantidad_valida(ls1[j].cantidad as int));
            }
            assert(m.stock_resultante >= 0 && m.delta != 0);
            let todos = aplicar_ajuste(ps, ls, items)->Ok_0.0;
            assert(todos == movs.push(m));
            assert forall|i: int| 0 <= i < todos.len() implies (#[trigger] todos[i]).stock_resultante >= 0
                && todos[i].delta != 0 by {
                if i < movs.len() {
                    assert(todos[i] == movs[i]);
                }
            }
        }
    }
}

} // verus!
