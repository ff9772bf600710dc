//! Contexto INVENTARIO: ledger de movimientos (solo-INSERT), lotes para
//! alertas de vencimiento accionables y proyección de stock. El stock es
//! literalmente la suma de las cantidades del ledger.
//!
//! Las cantidades van en milésimas (NUMERIC(12,3)): 1,5 unidades = 1500.
//! Las fechas de vencimiento, en días corridos.

use vstd::prelude::*;

pub mod ajuste;

verus! {

/// Mayor magnitud de una cantidad NUMERIC(12,3), en milésimas.
pub const CANTIDAD_MAXIMA: i64 = 999_999_999_999;

/// Tipo de movimiento del ledger: exactamente estos cinco.
#[derive(Debug, Clone, Copy, PartialEq, Eq, Structural)]
pub enum TipoMovimiento {
    EntradaRecepcion,
    SalidaVenta,
    DevolucionCliente,
    DevolucionProveedor,
    Ajuste,
}

/// Motivo del documento de ajuste. Robo, pérdida y vencimiento son motivos,
/// no tipos de movimiento: el robo se descubre como faltante en un conteo.
#[derive(Debug, Clone, Copy, PartialEq, Eq, Structural)]
pub enum MotivoAjuste {
    Perdida,
    Rotura,
    Vencimiento,
    Robo,
    Conteo,
    Otro,
}

/// Un renglón del ledger de stock de un producto en el depósito principal.
#[derive(Debug, Clone, Copy, PartialEq, Eq, Structural)]
pub struct Movimiento {
    pub lote_id: Option<u128>,
    /// Con signo: entradas positivas, salidas negativas.
    pub cantidad: i64,
    pub tipo: TipoMovimiento,
}

/// Proyección de un lote: su vencimiento y la cantidad que le queda.
#[derive(Debug, Clone, Copy, PartialEq, Eq, Structural)]
pub struct LoteStock {
    pub id: u128,
    pub vencimiento: i32,
    pub cantidad: i64,
}

/// Proyecciones de un producto en el depósito principal: el stock y sus lotes.
#[derive(Debug, Clone, PartialEq, Eq)]
pub struct StockProducto {
    pub stock: i64,
    pub lotes: Vec<LoteStock>,
}

/// Una cantidad que entra en NUMERIC(12,3).
pub open spec fn cantidad_valida(c: int) -> bool {
    -CANTIDAD_MAXIMA <= c <= CANTIDAD_MAXIMA
}

/// Suma de las cantidades de los movimientos.
pub open spec fn suma_cantidades(movs: Seq<Movimiento>) -> int
    decreases movs.len(),
{
    if movs.len() == 0 {
        0
    } else {
        suma_cantidades(movs.drop_last()) + movs.last().cantidad
    }
}

/// Suma de las cantidades de los movimientos imputados a un lote dado (o,
/// con `None`, de los movimientos sin lote).
pub open spec fn suma_en_lote(movs: Seq<Movimiento>, lote: Option<u128>) -> int
    decreases movs.len(),
{
    if movs.len() == 0 {
        0
    } else {
        suma_en_lote(movs.drop_last(), lote) + if movs.last().lote_id == lote {
            movs.last().cantidad as int
        } else {
            0
        }
    }
}

/// Los lotes tienen identificadores distintos.
pub open spec fn lotes_distintos(lotes: Seq<LoteStock>) -> bool {
    forall|i: int, j: int| 0 <= i < j < lotes.len() ==> lotes[i].id != lotes[j].id
}

/// Todas las cantidades del producto entran en NUMERIC(12,3).
pub open spec fn cantidades_validas(p: StockProducto) -> bool {
    &&& cantidad_valida(p.stock as int)
    &&& forall|i: int| 0 <= i < p.lotes@.len() ==> cantidad_valida(#[trigger] p.lotes@[i].cantidad as int)
}

/// `despues` resulta de `antes` al asentar `movs` en el ledger: el stock y
/// cada lote cambian exactamente en la suma de sus movimientos; los lotes
/// existentes conservan identidad y vencimiento, y los lotes nuevos, que se
/// agregan al final, nacen de sus propios movimientos.
pub open spec fn aplica_movimientos(antes: StockProducto, movs: Seq<Movimiento>, despues: StockProducto) -> bool {
    &&& despues.stock == antes.stock + suma_cantidades(movs)
    &&& antes.lotes@.len() <= despues.lotes@.len()
    &&& forall|i: int| 0 <= i < antes.lotes@.len() ==> {
        &&& (#[trigger] despues.lotes@[i]).id == antes.lotes@[i].id
        &&& despues.lotes@[i].vencimiento == antes.lotes@[i].vencimiento
    }
    &&& forall|i: int| 0 <= i < despues.lotes@.len() ==>
        (#[trigger] despues.lotes@[i]).cantidad == (if i < antes.lotes@.len() {
            antes.lotes@[i].cantidad as int
        } else {
            0
        }) + suma_en_lote(movs, Some(despues.lotes@[i].id))
}

/// Cada movimiento va sin lote o a uno de los lotes dados.
pub open spec fn movimientos_en_lotes(movs: Seq<Movimiento>, lotes: Seq<LoteStock>) -> bool {
    forall|k: int|
        0 <= k < movs.len() && (#[trigger] movs[k]).lote_id is Some ==> exists|i: int|
            0 <= i < lotes.len() && Some(#[trigger] lotes[i].id) == movs[k].lote_id
}

/// Los movimientos de una salida tal como los asienta FEFO: los imputados a
/// lotes van en el orden en que se vacían los lotes (así cada lote aparece a
/// lo sumo una vez) y hay a lo sumo uno sin lote, el último.
pub open spec fn movimientos_en_orden_fefo(movs: Seq<Movimiento>, lotes: Seq<LoteStock>) -> bool {
    &&& forall|k: int, l: int, i: int, j: int|
        #![trigger movs[k], movs[l], lotes[i], lotes[j]]
        0 <= k < l < movs.len() && 0 <= i < lotes.len() && 0 <= j < lotes.len() && movs[k].lote_id == Some(
            lotes[i].id,
        ) && movs[l].lote_id == Some(lotes[j].id) ==> antes_que(lotes, i, j)
    &&& forall|k: int| 0 <= k < movs.len() && (#[trigger] movs[k]).lote_id is None ==> k == movs.len() - 1
}

/// Orden FEFO: el lote `j` va antes que el `i` si vence antes, o vence el
/// mismo día y se creó antes.
pub open spec fn antes_que(lotes: Seq<LoteStock>, j: int, i: int) -> bool {
    lotes[j].vencimiento < lotes[i].vencimiento
        || (lotes[j].vencimiento == lotes[i].vencimiento && j < i)
}

/// Reparto FEFO de una salida de `cantidad`: de cada lote con stock se toma
/// entre nada y todo lo que tiene; si se tocó un lote, todo lote con stock
/// que vence antes quedó agotado; y solo sale mercadería sin lote cuando
/// todos los lotes con stock quedaron agotados.
pub open spec fn reparto_fefo(antes: Seq<LoteStock>, despues: Seq<LoteStock>, movs: Seq<Movimiento>) -> bool {
    &&& antes.len() == despues.len()
    &&& forall|i: int| 0 <= i < antes.len() ==> {
        &&& (#[trigger] despues[i]).cantidad <= antes[i].cantidad
        &&& antes[i].cantidad > 0 ==> despues[i].cantidad >= 0
        &&& antes[i].cantidad <= 0 ==> despues[i].cantidad == antes[i].cantidad
    }
    &&& forall|i: int, j: int|
        0 <= i < antes.len() && 0 <= j < antes.len() && (#[trigger] despues[i]).cantidad < antes[i].cantidad
            && antes[j].cantidad > 0 && antes_que(antes, j, i) ==> (#[trigger] despues[j]).cantidad == 0
    &&& suma_en_lote(movs, None) < 0 ==> forall|j: int|
        0 <= j < antes.len() && antes[j].cantidad > 0 ==> (#[trigger] despues[j]).cantidad == 0
    &&& suma_en_lote(movs, None) <= 0
}

proof fn lema_suma_push(movs: Seq<Movimiento>, m: Movimiento)
    ensures
        suma_cantidades(movs.push(m)) == suma_cantidades(movs) + m.cantidad,
        forall|l: Option<u128>| #[trigger] suma_en_lote(movs.push(m), l) == suma_en_lote(movs, l) + if m.lote_id == l {
            m.cantidad as int
        } else {
            0
        },
{
    assert(movs.push(m).drop_last() =~= movs);
}

/// Lo que los movimientos imputan, en total, a los lotes dados.
pub open spec fn tomado_de_lotes(movs: Seq<Movimiento>, lotes: Seq<LoteStock>) -> int
    decreases lotes.len(),
{
    if lotes.len() == 0 {
        0
    } else {
        tomado_de_lotes(movs, lotes.drop_last()) + suma_en_lote(movs, Some(lotes.last().id))
    }
}

/// Hay un lote con ese identificador.
pub open spec fn hay_lote(lotes: Seq<LoteStock>, id: u128) -> bool {
    exists|i: int| 0 <= i < lotes.len() && #[trigger] lotes[i].id == id
}

proof fn lema_tomado_push(movs: Seq<Movimiento>, lotes: Seq<LoteStock>, m: Movimiento)
    requires
        lotes_distintos(lotes),
    ensures
        tomado_de_lotes(movs.push(m), lotes) == tomado_de_lotes(movs, lotes) + if m.lote_id matches Some(id)
            && hay_lote(lotes, id) {
            m.cantidad as int
        } else {
            0
        },
    decreases lotes.len(),
{
    lema_suma_push(movs, m);
    if lotes.len() > 0 {
        let pre = lotes.drop_last();
        let l = lotes.last();
        assert(lotes_distintos(pre));
        lema_tomado_push(movs, pre, m);
        if let Some(id) = m.lote_id {
            if hay_lote(lotes, id) {
                let i = choose|i: int| 0 <= i < lotes.len() && #[trigger] lotes[i].id == id;
                if i < pre.len() {
                    assert(pre[i].id == id);
                    assert(l.id != id);
                } else {
                    assert(!hay_lote(pre, id)) by {
                        if hay_lote(pre, id) {
                            let j = choose|j: int| 0 <= j < pre.len() && #[trigger] pre[j].id == id;
                            assert(lotes[j].id == lotes[lotes.len() - 1].id);
                        }
                    }
                }
            } else {
                assert(l.id != id) by {
                    if l.id == id {
                        assert(lotes[lotes.len() - 1].id == id);
                    }
                }
                assert(!hay_lote(pre, id)) by {
                    if hay_lote(pre, id) {
                        let j = choose|j: int| 0 <= j < pre.len() && #[trigger] pre[j].id == id;
                        assert(lotes[j].id == id);
                    }
                }
            }
        }
    }
}

/// Si cada movimiento va sin lote o a uno de los lotes (todos distintos), el
/// total de los movimientos es lo imputado a los lotes más lo que va sin lote.
proof fn lema_descomposicion(movs: Seq<Movimiento>, lotes: Seq<LoteStock>)
    requires
        lotes_distintos(lotes),
        movimientos_en_lotes(movs, lotes),
    ensures
        suma_cantidades(movs) == tomado_de_lotes(movs, lotes) + suma_en_lote(movs, None),
    decreases movs.len(),
{
    if movs.len() == 0 {
        lema_tomado_vacio(movs, lotes);
    } else {
        let pre = movs.drop_last();
        let m = movs.last();
        assert(movs == pre.push(m));
        assert(movimientos_en_lotes(pre, lotes)) by {
            assert forall|k: int| 0 <= k < pre.len() && (#[trigger] pre[k]).lote_id is Some implies exists|i: int|
                0 <= i < lotes.len() && Some(#[trigger] lotes[i].id) == pre[k].lote_id by {
                assert(pre[k] == movs[k]);
            }
        }
        lema_descomposicion(pre, lotes);
        lema_suma_push(pre, m);
        lema_tomado_push(pre, lotes, m);
        if let Some(id) = m.lote_id {
            assert(movs[movs.len() - 1] == m);
            let i = choose|i: int| 0 <= i < lotes.len() && Some(#[trigger] lotes[i].id) == movs[movs.len() - 1].lote_id;
            assert(lotes[i].id == id);
            assert(hay_lote(lotes, id));
        }
    }
}

proof fn lema_tomado_vacio(movs: Seq<Movimiento>, lotes: Seq<LoteStock>)
    requires
        movs.len() == 0,
    ensures
        tomado_de_lotes(movs, lotes) == 0,
    decreases lotes.len(),
{
    if lotes.len() > 0 {
        lema_tomado_vacio(movs, lotes.drop_last());
    }
}

/// Salida de mercadería por venta sincronizada, con FEFO por asunción:
/// descuenta del lote con vencimiento más próximo que tenga stock, en cascada
/// si la cantidad abarca varios lotes; lo que no alcanza a cubrirse con lotes
/// sale sin lote. NUNCA se pide selección de lote en la caja: es una
/// aproximación deliberada que el conteo físico recalibra vía ajuste.
///
/// El stock del depósito SÍ puede quedar negativo (la caja jamás bloquea con
/// el cliente en el mostrador); los lotes, en cambio, nunca bajan de cero.
/// Devuelve los movimientos a asentar en el ledger.
pub fn registrar_salida_venta_fefo(p: &mut StockProducto, cantidad: i64) -> (movs: Vec<Movimiento>)
    requires
        cantidad > 0,
        cantidad_valida(cantidad as int),
        cantidades_validas(*old(p)),
        lotes_distintos(old(p).lotes@),
        cantidad_valida(old(p).stock - cantidad),
    ensures
        aplica_movimientos(*old(p), movs@, *final(p)),
        final(p).lotes@.len() == old(p).lotes@.len(),
        suma_cantidades(movs@) == -cantidad,
        reparto_fefo(old(p).lotes@, final(p).lotes@, movs@),
        movimientos_en_lotes(movs@, old(p).lotes@),
        movimientos_en_orden_fefo(movs@, old(p).lotes@),
        tomado_de_lotes(movs@, old(p).lotes@) + suma_en_lote(movs@, None) == -cantidad,
        son_salidas_de_venta(movs@),
        movimientos_validos(movs@),
        cantidades_validas(*final(p)),
        lotes_distintos(final(p).lotes@),
{
    let ghost orig = p.lotes@;
    let n = p.lotes.len();
    let mut usado: Vec<bool> = Vec::new();
    let mut k: usize = 0;
    while k < n
        invariant
            k <= n,
            usado@.len() == k,
            forall|i: int| 0 <= i < k ==> !(#[trigger] usado@[i]),
        decreases n - k,
    {
        usado.push(false);
        k = k + 1;
    }
    let mut movs: Vec<Movimiento> = Vec::new();
    let mut restante: i64 = cantidad;
    let ghost mut ultimo: int = -1;
    let ghost mut idx: Seq<int> = Seq::empty();
    let ghost stock0 = p.stock;
    loop
        invariant
            p.stock == stock0,
            n == orig.len(),
            p.lotes@.len() == n,
            usado@.len() == n,
            lotes_distintos(orig),
            forall|i: int| 0 <= i < n ==> cantidad_valida(#[trigger] orig[i].cantidad as int),
            0 <= restante <= cantidad,
            cantidad_valida(cantidad as int),
            forall|i: int| 0 <= i < n ==> {
                &&& (#[trigger] p.lotes@[i]).id == orig[i].id
                &&& p.lotes@[i].vencimiento == orig[i].vencimiento
                &&& p.lotes@[i].cantidad == orig[i].cantidad + suma_en_lote(movs@, Some(orig[i].id))
                &&& !usado@[i] ==> p.lotes@[i].cantidad == orig[i].cantidad
                &&& usado@[i] ==> orig[i].cantidad > 0 && 0 <= p.lotes@[i].cantidad < orig[i].cantidad
                &&& usado@[i] && i != ultimo ==> p.lotes@[i].cantidad == 0
                &&& usado@[i] && i != ultimo ==> antes_que(orig, i, ultimo)
                &&& usado@[i] && restante > 0 ==> p.lotes@[i].cantidad == 0
            },
            ultimo == -1 || (0 <= ultimo < n && usado@[ultimo]),
            forall|i: int, j: int|
                0 <= i < n && 0 <= j < n && #[trigger] usado@[i] && !#[trigger] usado@[j] && orig[j].cantidad > 0
                    ==> antes_que(orig, i, j),
            suma_cantidades(movs@) == restante - cantidad,
            suma_en_lote(movs@, None) == 0,
            movimientos_en_lotes(movs@, orig),
            idx.len() == movs@.len(),
            forall|q: int|
                0 <= q < idx.len() ==> 0 <= #[trigger] idx[q] < n && usado@[idx[q]] && movs@[q].lote_id == Some(
                    orig[idx[q]].id,
                ),
            forall|q: int, r: int| 0 <= q < r < idx.len() ==> antes_que(orig, #[trigger] idx[q], #[trigger] idx[r]),
            forall|q: int| 0 <= q < movs@.len() ==> (#[trigger] movs@[q]).tipo == TipoMovimiento::SalidaVenta
                && movs@[q].cantidad < 0 && movs@[q].lote_id is Some && movs@[q].cantidad >= -cantidad,
        ensures
            restante > 0 ==> forall|j: int| 0 <= j < n && !(#[trigger] usado@[j]) ==> orig[j].cantidad <= 0,
        decreases restante,
    {
        if restante <= 0 {
            break;
        }
        // El lote con stock, aún no tocado, que vence primero.
        let mut mejor: Option<usize> = None;
        let mut j: usize = 0;
        while j < n
            invariant
                j <= n,
                n == orig.len(),
                p.lotes@.len() == n,
                usado@.len() == n,
                forall|i: int| 0 <= i < n ==> {
                    &&& (#[trigger] p.lotes@[i]).vencimiento == orig[i].vencimiento
                    &&& !usado@[i] ==> p.lotes@[i].cantidad == orig[i].cantidad
                },
                mejor matches Some(b) ==> b < j && !usado@[b as int] && orig[b as int].cantidad > 0,
                forall|i: int| 0 <= i < j && !(#[trigger] usado@[i]) && orig[i].cantidad > 0 ==> (
                    mejor matches Some(b) && (i == b || antes_que(orig, b as int, i))),
            decreases n - j,
        {
            if !usado[j] && p.lotes[j].cantidad > 0 {
                let mejora = match mejor {
                    None => true,
                    Some(b) => p.lotes[j].vencimiento < p.lotes[b].vencimiento,
                };
                if mejora {
                    mejor = Some(j);
                }
            }
            j = j + 1;
        }
        match mejor {
            None => {
                break;
            },
            Some(b) => {
                let lote = p.lotes[b];
                let tomar: i64 = if restante < lote.cantidad { restante } else { lote.cantidad };
                let nuevo = LoteStock { id: lote.id, vencimiento: lote.vencimiento, cantidad: lote.cantidad - tomar };
                let m = Movimiento { lote_id: Some(lote.id), cantidad: -tomar, tipo: TipoMovimiento::SalidaVenta };
                let ghost lotes_antes = p.lotes@;
                let ghost usado_antes = usado@;
                let ghost movs_antes = movs@;
                let ghost restante_antes = restante as int;
                let ghost ultimo_antes = ultimo;
                proof {
                    lema_suma_push(movs@, m);
                }
                p.lotes.set(b, nuevo);
                usado.set(b, true);
                movs.push(m);
                restante = restante - tomar;
                proof {
                    let idx_antes = idx;
                    idx = idx.push(b as int);
                    assert forall|q: int| 0 <= q < idx.len() implies 0 <= #[trigger] idx[q] < n && usado@[idx[q]]
                        && movs@[q].lote_id == Some(orig[idx[q]].id) by {
                        if q < idx_antes.len() {
                            assert(idx[q] == idx_antes[q]);
                            assert(movs@[q] == movs_antes[q]);
                        }
                    }
                    assert forall|q: int, r: int| 0 <= q < r < idx.len() implies antes_que(
                        orig,
                        #[trigger] idx[q],
                        #[trigger] idx[r],
                    ) by {
                        assert(idx[q] == idx_antes[q]);
                        if r < idx_antes.len() {
                            assert(idx[r] == idx_antes[r]);
                        } else {
                            assert(usado_antes[idx_antes[q]]);
                            assert(!usado_antes[b as int]);
                        }
                    }
                    assert(lotes_antes[b as int].id == orig[b as int].id);
                    assert forall|k: int| 0 <= k < movs@.len() && (#[trigger] movs@[k]).lote_id is Some implies exists|i: int|
                        0 <= i < orig.len() && Some(#[trigger] orig[i].id) == movs@[k].lote_id by {
                        if k < movs_antes.len() {
                            assert(movs@[k] == movs_antes[k]);
                        } else {
                            assert(Some(orig[b as int].id) == movs@[k].lote_id);
                        }
                    }
                    ultimo = b as int;
                    assert forall|i: int| 0 <= i < n implies {
                        &&& (#[trigger] p.lotes@[i]).id == orig[i].id
                        &&& p.lotes@[i].vencimiento == orig[i].vencimiento
                        &&& p.lotes@[i].cantidad == orig[i].cantidad + suma_en_lote(movs@, Some(orig[i].id))
                        &&& !usado@[i] ==> p.lotes@[i].cantidad == orig[i].cantidad
                        &&& usado@[i] ==> orig[i].cantidad > 0 && 0 <= p.lotes@[i].cantidad < orig[i].cantidad
                        &&& usado@[i] && i != ultimo ==> p.lotes@[i].cantidad == 0
                        &&& usado@[i] && i != ultimo ==> antes_que(orig, i, ultimo)
                        &&& usado@[i] && restante > 0 ==> p.lotes@[i].cantidad == 0
                    } by {
                        assert(lotes_antes[i].id == orig[i].id);
                        if i != b as int {
                            assert(orig[i].id != orig[b as int].id);
                            assert(p.lotes@[i] == lotes_antes[i]);
                            assert(usado@[i] == usado_antes[i]);
                            if usado_antes[i] {
                                assert(antes_que(orig, i, b as int));
                            }
                        } else {
                            assert(suma_en_lote(movs_antes, Some(orig[i].id)) == 0);
                        }
                    }
                    assert forall|i: int, j: int|
                        0 <= i < n && 0 <= j < n && #[trigger] usado@[i] && !#[trigger] usado@[j] && orig[j].cantidad > 0
                        implies antes_que(orig, i, j) by {
                        assert(usado_antes[j]== usado@[j]);
                        if i != b as int {
                            assert(usado_antes[i]);
                        }
                    }
                }
            },
        }
    }
    if restante > 0 {
        let m = Movimiento { lote_id: None, cantidad: -restante, tipo: TipoMovimiento::SalidaVenta };
        proof {
            lema_suma_push(movs@, m);
        }
        let ghost movs_antes = movs@;
        movs.push(m);
        proof {
            assert forall|k: int| 0 <= k < movs@.len() && (#[trigger] movs@[k]).lote_id is Some implies exists|i: int|
                0 <= i < orig.len() && Some(#[trigger] orig[i].id) == movs@[k].lote_id by {
                assert(k < movs_antes.len());
                assert(movs@[k] == movs_antes[k]);
            }
        }
    }
    p.stock = p.stock - cantidad;
    proof {
        assert forall|i: int, j: int|
            0 <= i < n && 0 <= j < n && (#[trigger] p.lotes@[i]).cantidad < orig[i].cantidad
                && orig[j].cantidad > 0 && antes_que(orig, j, i) implies (#[trigger] p.lotes@[j]).cantidad == 0 by {
            assert(usado@[i]);
            if !usado@[j] {
                assert(antes_que(orig, i, j));
            }
            if j == ultimo {
                assert(antes_que(orig, i, ultimo));
            }
        }
        assert forall|i: int| 0 <= i < p.lotes@.len() implies cantidad_valida(#[trigger] p.lotes@[i].cantidad as int) by {
            assert(cantidad_valida(orig[i].cantidad as int));
        }
        lema_descomposicion(movs@, orig);
        assert forall|k: int, l: int, i: int, j: int|
            #![trigger movs@[k], movs@[l], orig[i], orig[j]]
            0 <= k < l < movs@.len() && 0 <= i < orig.len() && 0 <= j < orig.len() && movs@[k].lote_id == Some(
                orig[i].id,
            ) && movs@[l].lote_id == Some(orig[j].id) implies antes_que(orig, i, j) by {
            assert(l < idx.len());
            let a = idx[k];
            let c = idx[l];
            assert(orig[a].id == orig[i].id);
            assert(orig[c].id == orig[j].id);
            if a != i {
                if a < i {
                    assert(orig[a].id != orig[i].id);
                } else {
                    assert(orig[i].id != orig[a].id);
                }
            }
            if c != j {
                if c < j {
                    assert(orig[c].id != orig[j].id);
                } else {
                    assert(orig[j].id != orig[c].id);
                }
            }
        }
        assert forall|k: int| 0 <= k < movs@.len() && (#[trigger] movs@[k]).lote_id is None implies k == movs@.len()
            - 1 by {
            if k < idx.len() {
                assert(movs@[k].lote_id == Some(orig[idx[k]].id));
            }
        }
    }
    movs
}

/// Registra la entrada de mercadería de un ítem de recepción confirmado:
/// crea el lote si hay fecha de vencimiento (el producto la controla),
/// arma el movimiento del ledger y actualiza la proyección de stock.
pub fn registrar_entrada_recepcion(
    p: &mut StockProducto,
    cantidad: i64,
    vencimiento: Option<i32>,
    lote_nuevo_id: u128,
) -> (m: Movimiento)
    requires
        cantidades_validas(*old(p)),
        lotes_distintos(old(p).lotes@),
        cantidad_valida(cantidad as int),
        cantidad_valida(old(p).stock + cantidad),
        forall|i: int| 0 <= i < old(p).lotes@.len() ==> (#[trigger] old(p).lotes@[i]).id != lote_nuevo_id,
    ensures
        aplica_movimientos(*old(p), seq![m], *final(p)),
        m.tipo == TipoMovimiento::EntradaRecepcion,
        m.cantidad == cantidad,
        m.lote_id == (match vencimiento {
            Some(_) => Some(lote_nuevo_id),
            None => None::<u128>,
        }),
        vencimiento is None ==> final(p).lotes@ == old(p).lotes@,
        vencimiento matches Some(v) ==> final(p).lotes@ == old(p).lotes@.push(
            LoteStock { id: lote_nuevo_id, vencimiento: v, cantidad },
        ),
        cantidades_validas(*final(p)),
        lotes_distintos(final(p).lotes@),
{
    let lote_id = match vencimiento {
        Some(fecha) => {
            p.lotes.push(LoteStock { id: lote_nuevo_id, vencimiento: fecha, cantidad });
            Some(lote_nuevo_id)
        },
        None => None,
    };
    let m = Movimiento { lote_id, cantidad, tipo: TipoMovimiento::EntradaRecepcion };
    p.stock = p.stock + cantidad;
    proof {
        lema_suma_push(Seq::empty(), m);
        assert(seq![m] == Seq::<Movimiento>::empty().push(m));
    }
    m
}

/// Contra-asientos de los movimientos de un ítem de venta: cada salida por
/// venta se revierte con la misma cantidad de signo invertido, sobre el
/// mismo lote. Los demás movimientos no se tocan.
pub open spec fn reversa(movs: Seq<Movimiento>) -> Seq<Movimiento>
    decreases movs.len(),
{
    if movs.len() == 0 {
        Seq::empty()
    } else {
        let m = movs.last();
        if m.tipo == TipoMovimiento::SalidaVenta && m.cantidad < 0 {
            reversa(movs.drop_last()).push(
                Movimiento { lote_id: m.lote_id, cantidad: (-m.cantidad) as i64, tipo: TipoMovimiento::SalidaVenta },
            )
        } else {
            reversa(movs.drop_last())
        }
    }
}

/// Todas las cantidades de los movimientos entran en NUMERIC(12,3).
pub open spec fn movimientos_validos(movs: Seq<Movimiento>) -> bool {
    forall|k: int| 0 <= k < movs.len() ==> cantidad_valida(#[trigger] movs[k].cantidad as int)
}

proof fn lema_reversa_push(movs: Seq<Movimiento>, m: Movimiento)
    ensures
        reversa(movs.push(m)) == if m.tipo == TipoMovimiento::SalidaVenta && m.cantidad < 0 {
            reversa(movs).push(Movimiento { lote_id: m.lote_id, cantidad: (-m.cantidad) as i64, tipo: TipoMovimiento::SalidaVenta })
        } else {
            reversa(movs)
        },
{
    assert(movs.push(m).drop_last() =~= movs);
}

proof fn lema_reversa_positiva(movs: Seq<Movimiento>)
    requires
        movimientos_validos(movs),
    ensures
        forall|q: int| 0 <= q < reversa(movs).len() ==> (#[trigger] reversa(movs)[q]).cantidad > 0,
        suma_cantidades(reversa(movs)) >= 0,
        forall|l: Option<u128>| #[trigger] suma_en_lote(reversa(movs), l) >= 0,
    decreases movs.len(),
{
    if movs.len() > 0 {
        let previo = movs.drop_last();
        assert(movimientos_validos(previo)) by {
            assert forall|k: int| 0 <= k < previo.len() implies cantidad_valida(#[trigger] previo[k].cantidad as int) by {
                assert(previo[k] == movs[k]);
            }
        }
        lema_reversa_positiva(previo);
        assert(movs =~= previo.push(movs.last()));
        lema_reversa_push(previo, movs.last());
        assert(cantidad_valida(movs[movs.len() - 1].cantidad as int));
        let r = Movimiento { lote_id: movs.last().lote_id, cantidad: (-movs.last().cantidad) as i64, tipo: TipoMovimiento::SalidaVenta };
        lema_suma_push(reversa(previo), r);
    }
}

/// Las sumas de los contra-asientos de un prefijo no superan las del total.
proof fn lema_reversa_prefijo(movs: Seq<Movimiento>, k: int, n: int)
    requires
        movimientos_validos(movs),
        0 <= k <= n <= movs.len(),
    ensures
        0 <= suma_cantidades(reversa(movs.take(k))) <= suma_cantidades(reversa(movs.take(n))),
        forall|l: Option<u128>| 0 <= #[trigger] suma_en_lote(reversa(movs.take(k)), l)
            <= suma_en_lote(reversa(movs.take(n)), l),
    decreases n - k,
{
    assert(movimientos_validos(movs.take(k))) by {
        assert forall|q: int| 0 <= q < movs.take(k).len() implies cantidad_valida(#[trigger] movs.take(k)[q].cantidad as int) by {
            assert(movs.take(k)[q] == movs[q]);
        }
    }
    lema_reversa_positiva(movs.take(k));
    if k < n {
        lema_reversa_prefijo(movs, k + 1, n);
        assert(movs.take(k + 1) =~= movs.take(k).push(movs[k]));
        lema_reversa_push(movs.take(k), movs[k]);
        assert(cantidad_valida(movs[k].cantidad as int));
        let r = Movimiento { lote_id: movs[k].lote_id, cantidad: (-movs[k].cantidad) as i64, tipo: TipoMovimiento::SalidaVenta };
        lema_suma_push(reversa(movs.take(k)), r);
        assert forall|l: Option<u128>| 0 <= #[trigger] suma_en_lote(reversa(movs.take(k)), l)
            <= suma_en_lote(reversa(movs.take(n)), l) by {
            assert(0 <= suma_en_lote(reversa(movs.take(k + 1)), l) <= suma_en_lote(reversa(movs.take(n)), l));
            if movs[k].tipo == TipoMovimiento::SalidaVenta && movs[k].cantidad < 0 {
                assert(suma_en_lote(reversa(movs.take(k + 1)), l) == suma_en_lote(reversa(movs.take(k)), l)
                    + if r.lote_id == l { r.cantidad as int } else { 0 });
            } else {
                assert(reversa(movs.take(k + 1)) == reversa(movs.take(k)));
            }
        }
    }
}

/// Suma `delta` a la cantidad del lote `id`, si está entre los lotes.
fn sumar_en_lote(lotes: &mut Vec<LoteStock>, id: u128, delta: i64)
    requires
        lotes_distintos(old(lotes)@),
        forall|i: int| 0 <= i < old(lotes)@.len() && (#[trigger] old(lotes)@[i]).id == id ==> cantidad_valida(
            old(lotes)@[i].cantidad + delta),
        forall|i: int| 0 <= i < old(lotes)@.len() ==> cantidad_valida((#[trigger] old(lotes)@[i]).cantidad as int),
    ensures
        final(lotes)@.len() == old(lotes)@.len(),
        forall|i: int| 0 <= i < old(lotes)@.len() ==> {
            &&& (#[trigger] final(lotes)@[i]).id == old(lotes)@[i].id
            &&& final(lotes)@[i].vencimiento == old(lotes)@[i].vencimiento
            &&& final(lotes)@[i].cantidad == old(lotes)@[i].cantidad + if old(lotes)@[i].id == id {
                delta as int
            } else {
                0
            }
        },
{
    let mut i: usize = 0;
    while i < lotes.len()
        invariant
            i <= lotes@.len(),
            lotes@ == old(lotes)@,
            lotes_distintos(old(lotes)@),
            forall|j: int| 0 <= j < old(lotes)@.len() && (#[trigger] old(lotes)@[j]).id == id ==> cantidad_valida(
                old(lotes)@[j].cantidad + delta),
            forall|j: int| 0 <= j < i ==> (#[trigger] lotes@[j]).id != id,
        decreases lotes@.len() - i,
    {
        if lotes[i].id == id {
            let l = lotes[i];
            let ghost previo = lotes@;
            assert(cantidad_valida(previo[i as int].cantidad + delta));
            lotes.set(i, LoteStock { id: l.id, vencimiento: l.vencimiento, cantidad: l.cantidad + delta });
            assert forall|j: int| 0 <= j < previo.len() && j != i implies previo[j].id != id by {
                if j < i {
                } else {
                    assert(previo[i as int].id != previo[j].id);
                }
            }
            return;
        }
        i = i + 1;
    }
}

/// Reversa de los movimientos de un ítem de venta anulada: contra-asientos
/// con signo invertido referenciando los mismos lotes, que vuelven a sumar
/// en los lotes y en el stock. Jamás se modifica el ledger existente.
pub fn registrar_reversa_venta(p: &mut StockProducto, originales: &Vec<Movimiento>) -> (movs: Vec<Movimiento>)
    requires
        movimientos_validos(originales@),
        forall|k: int| 0 <= k < originales@.len() ==> #[trigger] originales@[k].cantidad <= 0
            || originales@[k].tipo != TipoMovimiento::SalidaVenta,
        lotes_distintos(old(p).lotes@),
        cantidades_validas(*old(p)),
        cantidad_valida(old(p).stock + suma_cantidades(reversa(originales@))),
        forall|i: int| 0 <= i < old(p).lotes@.len() ==> cantidad_valida(
            (#[trigger] old(p).lotes@[i]).cantidad + suma_en_lote(reversa(originales@), Some(old(p).lotes@[i].id))),
    ensures
        movs@ == reversa(originales@),
        aplica_movimientos(*old(p), movs@, *final(p)),
        final(p).lotes@.len() == old(p).lotes@.len(),
        cantidades_validas(*final(p)),
        lotes_distintos(final(p).lotes@),
{
    let ghost orig = p.lotes@;
    let ghost stock0 = p.stock;
    let mut movs: Vec<Movimiento> = Vec::new();
    let mut k: usize = 0;
    assert(originales@.take(0) =~= Seq::<Movimiento>::empty());
    while k < originales.len()
        invariant
            k <= originales@.len(),
            movs@ == reversa(originales@.take(k as int)),
            movimientos_validos(originales@),
            p.lotes@.len() == orig.len(),
            lotes_distintos(orig),
            p.stock == stock0 + suma_cantidades(movs@),
            cantidad_valida(stock0 as int),
            cantidad_valida(stock0 + suma_cantidades(reversa(originales@))),
            forall|i: int| 0 <= i < orig.len() ==> cantidad_valida(#[trigger] orig[i].cantidad as int),
            forall|i: int| 0 <= i < orig.len() ==> cantidad_valida(
                (#[trigger] orig[i]).cantidad + suma_en_lote(reversa(originales@), Some(orig[i].id))),
            forall|i: int| 0 <= i < orig.len() ==> {
                &&& (#[trigger] p.lotes@[i]).id == orig[i].id
                &&& p.lotes@[i].vencimiento == orig[i].vencimiento
                &&& p.lotes@[i].cantidad == orig[i].cantidad + suma_en_lote(movs@, Some(orig[i].id))
            },
            forall|q: int| 0 <= q < movs@.len() ==> (#[trigger] movs@[q]).cantidad > 0,
        decreases originales@.len() - k,
    {
        let m = originales[k];
        proof {
            assert(originales@.take(k + 1) =~= originales@.take(k as int).push(m));
            lema_reversa_push(originales@.take(k as int), m);
        }
        if m.tipo == TipoMovimiento::SalidaVenta && m.cantidad < 0 {
            assert(cantidad_valida(originales@[k as int].cantidad as int));
            let reverso = Movimiento { lote_id: m.lote_id, cantidad: -m.cantidad, tipo: TipoMovimiento::SalidaVenta };
            proof {
                lema_suma_push(movs@, reverso);
            }
            proof {
                lema_reversa_prefijo(originales@, k as int, originales@.len() as int);
                lema_reversa_prefijo(originales@, k as int + 1, originales@.len() as int);
                assert(originales@.take(originales@.len() as int) =~= originales@);
                assert(movs@.push(reverso) == reversa(originales@.take(k + 1)));
            }
            p.stock = p.stock + reverso.cantidad;
            match m.lote_id {
                Some(id) => {
                    proof {
                        assert forall|i: int| 0 <= i < p.lotes@.len() && (#[trigger] p.lotes@[i]).id == id implies
                            cantidad_valida(p.lotes@[i].cantidad + reverso.cantidad) by {
                            assert(p.lotes@[i].id == orig[i].id);
                            assert(suma_en_lote(movs@.push(reverso), Some(id)) == suma_en_lote(movs@, Some(id)) + reverso.cantidad);
                        }
                        assert forall|i: int| 0 <= i < p.lotes@.len() implies cantidad_valida((#[trigger] p.lotes@[i]).cantidad as int) by {
                            assert(p.lotes@[i].id == orig[i].id);
                        }
                    }
                    sumar_en_lote(&mut p.lotes, id, reverso.cantidad);
                },
                None => {},
            }
            movs.push(reverso);
        }
        k = k + 1;
    }
    assert(originales@.take(originales@.len() as int) =~= originales@);
    movs
}

/// Los movimientos son salidas por venta, con cantidad negativa.
pub open spec fn son_salidas_de_venta(movs: Seq<Movimiento>) -> bool {
    forall|k: int| 0 <= k < movs.len() ==> (#[trigger] movs[k]).tipo == TipoMovimiento::SalidaVenta
        && movs[k].cantidad < 0
}

proof fn lema_reversa_de_salidas(movs: Seq<Movimiento>)
    requires
        son_salidas_de_venta(movs),
        movimientos_validos(movs),
    ensures
        suma_cantidades(reversa(movs)) == -suma_cantidades(movs),
        forall|l: Option<u128>| #[trigger] suma_en_lote(reversa(movs), l) == -suma_en_lote(movs, l),
    decreases movs.len(),
{
    if movs.len() > 0 {
        let previo = movs.drop_last();
        let m = movs.last();
        assert(m == movs[movs.len() - 1]);
        assert(son_salidas_de_venta(previo) && movimientos_validos(previo)) by {
            assert forall|k: int| 0 <= k < previo.len() implies (#[trigger] previo[k]).tipo == TipoMovimiento::SalidaVenta
                && previo[k].cantidad < 0 && cantidad_valida(previo[k].cantidad as int) by {
                assert(previo[k] == movs[k]);
            }
        }
        lema_reversa_de_salidas(previo);
        let r = Movimiento { lote_id: m.lote_id, cantidad: (-m.cantidad) as i64, tipo: TipoMovimiento::SalidaVenta };
        lema_suma_push(reversa(previo), r);
    }
}

proof fn lema_suma_concatenada(ledger: Seq<Movimiento>, movs: Seq<Movimiento>)
    ensures
        suma_cantidades(ledger + movs) == suma_cantidades(ledger) + suma_cantidades(movs),
        forall|l: Option<u128>| #[trigger] suma_en_lote(ledger + movs, l) == suma_en_lote(ledger, l) + suma_en_lote(movs, l),
    decreases movs.len(),
{
    if movs.len() == 0 {
        assert(ledger + movs =~= ledger);
    } else {
        let previo = movs.drop_last();
        lema_suma_concatenada(ledger, previo);
        assert(ledger + movs =~= (ledger + previo).push(movs.last()));
        assert(movs =~= previo.push(movs.last()));
        lema_suma_push(ledger + previo, movs.last());
        lema_suma_push(previo, movs.last());
    }
}

/// Regla de oro: toda proyección se reconstruye desde su ledger. Si antes de
/// una operación el stock y cada lote eran la suma de sus movimientos,
/// después de asentar los movimientos nuevos lo siguen siendo (un lote nuevo
/// no tiene historia previa).
pub proof fn ley_proyeccion_reconstruible_desde_el_ledger(
    ledger: Seq<Movimiento>,
    antes: StockProducto,
    movs: Seq<Movimiento>,
    despues: StockProducto,
)
    requires
        antes.stock == suma_cantidades(ledger),
        forall|i: int| 0 <= i < antes.lotes@.len() ==> (#[trigger] antes.lotes@[i]).cantidad == suma_en_lote(
            ledger, Some(antes.lotes@[i].id)),
        aplica_movimientos(antes, movs, despues),
        forall|i: int| antes.lotes@.len() <= i < despues.lotes@.len() ==> suma_en_lote(
            ledger, Some((#[trigger] despues.lotes@[i]).id)) == 0,
    ensures
        despues.stock == suma_cantidades(ledger + movs),
        forall|i: int| 0 <= i < despues.lotes@.len() ==> (#[trigger] despues.lotes@[i]).cantidad == suma_en_lote(
            ledger + movs, Some(despues.lotes@[i].id)),
{
    lema_suma_concatenada(ledger, movs);
    assert forall|i: int| 0 <= i < despues.lotes@.len() implies (#[trigger] despues.lotes@[i]).cantidad == suma_en_lote(
        ledger + movs, Some(despues.lotes@[i].id)) by {
        if i < antes.lotes@.len() {
            assert(antes.lotes@[i].id == despues.lotes@[i].id);
        }
    }
}

/// Anular una venta restituye el stock: si a un producto se le asienta la
/// salida FEFO de una venta y después los contra-asientos de esos mismos
/// movimientos, el stock y cada lote vuelven exactamente a como estaban.
pub proof fn ley_anular_restituye_stock(
    p0: StockProducto,
    movs: Seq<Movimiento>,
    p1: StockProducto,
    p2: StockProducto,
)
    requires
        son_salidas_de_venta(movs),
        movimientos_validos(movs),
        aplica_movimientos(p0, movs, p1),
        p1.lotes@.len() == p0.lotes@.len(),
        aplica_movimientos(p1, reversa(movs), p2),
        p2.lotes@.len() == p1.lotes@.len(),
    ensures
        p2.stock == p0.stock,
        p2.lotes@ == p0.lotes@,
{
    lema_reversa_de_salidas(movs);
    assert forall|i: int| 0 <= i < p2.lotes@.len() implies #[trigger] p2.lotes@[i] == p0.lotes@[i] by {
        assert(p1.lotes@[i].id == p0.lotes@[i].id);
        assert(p2.lotes@[i].id == p1.lotes@[i].id);
    }
    assert(p2.lotes@ =~= p0.lotes@);
}

} // verus!
