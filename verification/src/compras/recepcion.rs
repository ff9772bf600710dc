//! Recepciones de mercadería: carga idempotente de ítems en borrador y la
//! confirmación, que decide todo lo que se asienta (precios, costos y
//! entradas de stock) o nada.

use vstd::prelude::*;
use crate::aritmetica::{entra_en_i64, redondeo_mitad_lejos};
use crate::catalogo::ProductoParaCompra;
use crate::compras::EstadoRecepcion;
use crate::compras::precio::{
    calcular_precio_final_centavos, costo_con_iva,
    normalizar_costo_con_iva_centavos, porcentaje_valido, precio_final, redondeo_a_multiplo,
    redondear_a_multiplo_centavos,
};
use crate::error::{es_conflicto, es_prohibido, es_validacion, texto, validacion, conflicto, ErrorApi};
use crate::identidad::permisos::{tiene_permiso, UsuarioActual, GESTIONAR_PROVEEDORES};
use crate::texto::{obligatorio, recortado};
use crate::texto::agregar_texto;

verus! {

/// Un ítem de una recepción. Cantidad en milésimas, porcentajes en
/// centésimos, vencimiento como número de día.
#[derive(Debug, Clone, Copy, PartialEq, Eq, Structural)]
pub struct ItemRecepcion {
    pub id: u128,
    pub producto_id: u128,
    pub cantidad: i64,
    pub costo_centavos: i64,
    pub costo_incluye_iva: bool,
    pub iva_pct: i64,
    pub markup_pct: i64,
    pub precio_final_centavos: i64,
    pub vencimiento: Option<i32>,
    pub etiquetado: bool,
}

/// Pedido de carga de un ítem. Los opcionales se resuelven en cascada.
#[derive(Debug, Clone, Copy, PartialEq, Eq, Structural)]
pub struct CargarItem {
    pub producto_id: u128,
    pub cantidad: i64,
    pub costo_centavos: i64,
    /// Default: `precios_con_iva` del proveedor, o `true` sin proveedor.
    pub costo_incluye_iva: Option<bool>,
    /// Cascada: valor explícito → override del producto → categoría.
    pub iva_pct: Option<i64>,
    pub markup_pct: Option<i64>,
    pub vencimiento: Option<i32>,
}

/// Validaciones del pedido que no dependen de la recepción ni del producto.
pub fn validar_datos_item(datos: &CargarItem) -> (r: Result<(), ErrorApi>)
    ensures
        datos.cantidad <= 0 ==> (r matches Err(e) && es_validacion(e, "la cantidad debe ser mayor a cero"@)),
        datos.cantidad > 0 && datos.costo_centavos < 0 ==> (r matches Err(e) && es_validacion(
            e,
            "el costo no puede ser negativo"@,
        )),
        datos.cantidad > 0 && datos.costo_centavos >= 0 ==> r is Ok,
{
    if datos.cantidad <= 0 {
        return Err(validacion("la cantidad debe ser mayor a cero"));
    }
    if datos.costo_centavos < 0 {
        return Err(validacion("el costo no puede ser negativo"));
    }
    Ok(())
}

/// `costo_incluye_iva` resuelto: el del pedido, si no el del proveedor, si no `true`.
pub open spec fn incluye_iva_resuelto(datos: CargarItem, precios_con_iva: Option<bool>) -> bool {
    match datos.costo_incluye_iva {
        Some(b) => b,
        None => match precios_con_iva {
            Some(b) => b,
            None => true,
        },
    }
}

/// Porcentaje resuelto: el explícito del pedido o el del producto.
pub open spec fn pct_resuelto(explicito: Option<i64>, del_producto: i64) -> i64 {
    match explicito {
        Some(v) => v,
        None => del_producto,
    }
}

/// Los porcentajes resueltos entran en la columna NUMERIC(5,2) que los guarda.
pub open spec fn pcts_guardables(datos: CargarItem, producto: ProductoParaCompra) -> bool {
    porcentaje_valido(pct_resuelto(datos.iva_pct, producto.iva_pct))
        && porcentaje_valido(pct_resuelto(datos.markup_pct, producto.markup_pct))
}

/// Precio final sin redondeo comercial del ítem pedido.
pub open spec fn precio_sin_redondeo(datos: CargarItem, precios_con_iva: Option<bool>, producto: ProductoParaCompra) -> int {
    precio_final(
        datos.costo_centavos as int,
        incluye_iva_resuelto(datos, precios_con_iva),
        pct_resuelto(datos.iva_pct, producto.iva_pct) as int,
        pct_resuelto(datos.markup_pct, producto.markup_pct) as int,
    )
}

/// El redondeo comercial del precio no desborda.
pub open spec fn redondeo_aplicable(precio: int, multiplo: int) -> bool {
    multiplo <= 1 || precio <= 0 || precio + multiplo / 2 <= i64::MAX
}

/// La carga llega al redondeo comercial del precio (pedido válido, recepción
/// en borrador, producto activo, fecha presente si hace falta, porcentajes
/// guardables y precio dentro de 64 bits) solo si ese redondeo no desborda.
pub open spec fn carga_calculable(
    estado: EstadoRecepcion,
    precios_con_iva: Option<bool>,
    producto: Option<ProductoParaCompra>,
    datos: CargarItem,
    redondeo: int,
) -> bool {
    match producto {
        Some(p) => (datos.cantidad > 0 && datos.costo_centavos >= 0 && estado == EstadoRecepcion::Borrador && !(
        p.controla_vencimiento && datos.vencimiento is None) && pcts_guardables(datos, p) && entra_en_i64(
            precio_sin_redondeo(datos, precios_con_iva, p),
        )) ==> redondeo_aplicable(precio_sin_redondeo(datos, precios_con_iva, p), redondeo),
        None => true,
    }
}

/// Verifica en ejecución `carga_calculable`, para que quien llama pueda
/// descartar las cargas cuyo redondeo comercial desbordaría.
pub fn item_es_calculable(
    recepcion: &Recepcion,
    producto: &Option<ProductoParaCompra>,
    datos: &CargarItem,
    redondeo_centavos: i64,
) -> (r: bool)
    ensures
        r == carga_calculable(recepcion.estado, recepcion.precios_con_iva, *producto, *datos, redondeo_centavos as int),
{
    let p = match producto {
        Some(p) => p,
        None => return true,
    };
    if datos.cantidad <= 0 || datos.costo_centavos < 0 || recepcion.estado != EstadoRecepcion::Borrador || (
    p.controla_vencimiento && datos.vencimiento.is_none()) {
        return true;
    }
    let incluye = match datos.costo_incluye_iva {
        Some(b) => b,
        None => match recepcion.precios_con_iva {
            Some(b) => b,
            None => true,
        },
    };
    let iva = match datos.iva_pct {
        Some(v) => v,
        None => p.iva_pct,
    };
    let markup = match datos.markup_pct {
        Some(v) => v,
        None => p.markup_pct,
    };
    if iva < -99999 || iva > 99999 || markup < -99999 || markup > 99999 {
        return true;
    }
    match calcular_precio_final_centavos(datos.costo_centavos, incluye, iva, markup) {
        Ok(precio) => redondeo_centavos <= 1 || precio <= 0 || precio <= i64::MAX - redondeo_centavos / 2,
        Err(_) => true,
    }
}

/// Una recepción con sus ítems, en el orden en que se cargaron.
#[derive(Debug, Clone)]
pub struct Recepcion {
    pub id: u128,
    pub estado: EstadoRecepcion,
    /// `precios_con_iva` del proveedor; `None` si la recepción no tiene proveedor.
    pub precios_con_iva: Option<bool>,
    pub items: Vec<ItemRecepcion>,
}

/// Ningún producto aparece en dos ítems de la misma recepción.
pub open spec fn productos_unicos(items: Seq<ItemRecepcion>) -> bool {
    forall|i: int, j: int|
        0 <= i < items.len() && 0 <= j < items.len() && i != j ==> (#[trigger] items[i]).producto_id
            != (#[trigger] items[j]).producto_id
}

/// Los porcentajes de cada ítem entran en su columna NUMERIC(5,2).
pub open spec fn porcentajes_guardados(items: Seq<ItemRecepcion>) -> bool {
    forall|i: int|
        0 <= i < items.len() ==> porcentaje_valido((#[trigger] items[i]).iva_pct) && porcentaje_valido(
            items[i].markup_pct,
        )
}

/// Invariante de una recepción: un ítem por producto, porcentajes guardables.
pub open spec fn recepcion_valida(items: Seq<ItemRecepcion>) -> bool {
    productos_unicos(items) && porcentajes_guardados(items)
}

/// Hay un ítem del producto.
pub open spec fn contiene_producto(items: Seq<ItemRecepcion>, producto_id: u128) -> bool {
    exists|k: int| 0 <= k < items.len() && (#[trigger] items[k]).producto_id == producto_id
}

/// Posición del ítem del producto (única si los productos no se repiten).
pub open spec fn posicion(items: Seq<ItemRecepcion>, producto_id: u128) -> int {
    choose|k: int| 0 <= k < items.len() && (#[trigger] items[k]).producto_id == producto_id
}

/// Carga idempotente: si el producto ya tiene ítem, se pisa conservando su
/// identidad y su marca de etiquetado; si no, se agrega al final.
pub open spec fn con_item(items: Seq<ItemRecepcion>, nuevo: ItemRecepcion) -> Seq<ItemRecepcion> {
    if contiene_producto(items, nuevo.producto_id) {
        let k = posicion(items, nuevo.producto_id);
        items.update(
            k,
            ItemRecepcion {
                id: items[k].id,
                producto_id: nuevo.producto_id,
                cantidad: nuevo.cantidad,
                costo_centavos: nuevo.costo_centavos,
                costo_incluye_iva: nuevo.costo_incluye_iva,
                iva_pct: nuevo.iva_pct,
                markup_pct: nuevo.markup_pct,
                precio_final_centavos: nuevo.precio_final_centavos,
                vencimiento: nuevo.vencimiento,
                etiquetado: items[k].etiquetado,
            },
        )
    } else {
        items.push(nuevo)
    }
}

/// Los ítems sin el del producto.
pub open spec fn sin_producto(items: Seq<ItemRecepcion>, producto_id: u128) -> Seq<ItemRecepcion>
    decreases items.len(),
{
    if items.len() == 0 {
        Seq::empty()
    } else {
        let previos = sin_producto(items.drop_last(), producto_id);
        if items.last().producto_id == producto_id {
            previos
        } else {
            previos.push(items.last())
        }
    }
}

/// El ítem que resulta de un pedido de carga, con la cascada resuelta y el
/// precio final calculado y redondeado.
pub open spec fn item_calculado(
    datos: CargarItem,
    precios_con_iva: Option<bool>,
    producto: ProductoParaCompra,
    redondeo_centavos: int,
    id: u128,
) -> ItemRecepcion {
    ItemRecepcion {
        id,
        producto_id: datos.producto_id,
        cantidad: datos.cantidad,
        costo_centavos: datos.costo_centavos,
        costo_incluye_iva: incluye_iva_resuelto(datos, precios_con_iva),
        iva_pct: pct_resuelto(datos.iva_pct, producto.iva_pct),
        markup_pct: pct_resuelto(datos.markup_pct, producto.markup_pct),
        precio_final_centavos: redondeo_a_multiplo(
            precio_sin_redondeo(datos, precios_con_iva, producto),
            redondeo_centavos,
        ) as i64,
        vencimiento: datos.vencimiento,
        etiquetado: false,
    }
}

/// Mensaje de un producto que controla vencimiento cargado sin fecha.
pub open spec fn mensaje_falta_fecha_carga(nombre: Seq<char>) -> Seq<char> {
    "el producto \""@ + nombre + "\" controla vencimiento: la fecha es obligatoria"@
}

proof fn lema_posicion_unica(items: Seq<ItemRecepcion>, k: int)
    requires
        productos_unicos(items),
        0 <= k < items.len(),
    ensures
        contiene_producto(items, items[k].producto_id),
        posicion(items, items[k].producto_id) == k,
{
    assert(items[k].producto_id == items[k].producto_id);
    let j = posicion(items, items[k].producto_id);
    assert(0 <= j < items.len() && items[j].producto_id == items[k].producto_id);
}

proof fn lema_con_item_unicos(items: Seq<ItemRecepcion>, nuevo: ItemRecepcion)
    requires
        productos_unicos(items),
    ensures
        productos_unicos(con_item(items, nuevo)),
        contiene_producto(con_item(items, nuevo), nuevo.producto_id),
        con_item(items, nuevo)[posicion(con_item(items, nuevo), nuevo.producto_id)].producto_id
            == nuevo.producto_id,
{
    let r = con_item(items, nuevo);
    if contiene_producto(items, nuevo.producto_id) {
        let k = posicion(items, nuevo.producto_id);
        assert(r[k].producto_id == nuevo.producto_id);
        lema_posicion_unica(r, k);
    } else {
        assert(r[items.len() as int].producto_id == nuevo.producto_id);
        lema_posicion_unica(r, items.len() as int);
    }
}

impl Recepcion {
    /// Carga (o vuelve a cargar) un ítem en una recepción en borrador. Los
    /// reintentos y las correcciones del mismo producto pisan su ítem sin
    /// duplicarlo. Si algo falla la recepción queda como estaba.
    pub fn cargar_item(
        &mut self,
        producto: Option<ProductoParaCompra>,
        redondeo_centavos: i64,
        datos: &CargarItem,
        id_nuevo: u128,
    ) -> (r: Result<ItemRecepcion, ErrorApi>)
        requires
            recepcion_valida(old(self).items@),
            carga_calculable(
                old(self).estado,
                old(self).precios_con_iva,
                producto,
                *datos,
                redondeo_centavos as int,
            ),
        ensures
            recepcion_valida(final(self).items@),
            final(self).id == old(self).id,
            final(self).estado == old(self).estado,
            final(self).precios_con_iva == old(self).precios_con_iva,
            r is Err ==> final(self).items@ == old(self).items@,
            datos.cantidad <= 0 ==> (r matches Err(e) && es_validacion(e, "la cantidad debe ser mayor a cero"@)),
            datos.cantidad > 0 && datos.costo_centavos < 0 ==> (r matches Err(e) && es_validacion(
                e,
                "el costo no puede ser negativo"@,
            )),
            datos.cantidad > 0 && datos.costo_centavos >= 0 ==> {
                &&& old(self).estado != EstadoRecepcion::Borrador ==> (r matches Err(e) && es_conflicto(
                    e,
                    "solo se pueden cargar ítems en una recepción en borrador"@,
                ))
                &&& old(self).estado == EstadoRecepcion::Borrador && producto is None ==> (r matches Err(e)
                    && es_validacion(e, "producto inexistente o inactivo"@))
                &&& producto matches Some(p) ==> old(self).estado == EstadoRecepcion::Borrador ==> {
                    let precio = precio_sin_redondeo(*datos, old(self).precios_con_iva, p);
                    let nuevo = item_calculado(*datos, old(self).precios_con_iva, p, redondeo_centavos as int, id_nuevo);
                    &&& p.controla_vencimiento && datos.vencimiento is None ==> (r matches Err(e) && es_validacion(
                        e,
                        mensaje_falta_fecha_carga(p.nombre@),
                    ))
                    &&& !(p.controla_vencimiento && datos.vencimiento is None) && !pcts_guardables(*datos, p) ==> (
                    r matches Err(e) && e is Interno)
                    &&& !(p.controla_vencimiento && datos.vencimiento is None) && pcts_guardables(*datos, p)
                        && !entra_en_i64(precio) ==> (r matches Err(e) && es_validacion(
                        e,
                        "el precio calculado desborda"@,
                    ))
                    &&& !(p.controla_vencimiento && datos.vencimiento is None) && pcts_guardables(*datos, p)
                        && entra_en_i64(precio) ==> {
                        &&& final(self).items@ == con_item(old(self).items@, nuevo)
                        &&& r matches Ok(item) && item == ItemRecepcion {
                            id: con_item(old(self).items@, nuevo)[posicion(
                                con_item(old(self).items@, nuevo),
                                datos.producto_id,
                            )].id,
                            ..nuevo
                        }
                    }
                }
            },
            // el `costo_incluye_iva` explícito del pedido manda; si falta, el del
            // proveedor; sin proveedor, el costo incluye IVA
            r matches Ok(item) ==> (datos.costo_incluye_iva is Some ==> item.costo_incluye_iva
                == datos.costo_incluye_iva.unwrap()),
            r matches Ok(item) ==> (datos.costo_incluye_iva is None && old(self).precios_con_iva is Some
                ==> item.costo_incluye_iva == old(self).precios_con_iva.unwrap()),
            r matches Ok(item) ==> (datos.costo_incluye_iva is None && old(self).precios_con_iva is None
                ==> item.costo_incluye_iva),
            // el ítem guarda lo pedido; IVA y markup: el explícito del pedido o el del producto
            r matches Ok(item) ==> {
                &&& producto is Some
                &&& item.producto_id == datos.producto_id
                &&& item.cantidad == datos.cantidad
                &&& item.costo_centavos == datos.costo_centavos
                &&& item.vencimiento == datos.vencimiento
                &&& !item.etiquetado
                &&& (datos.iva_pct is Some ==> item.iva_pct == datos.iva_pct.unwrap())
                &&& (datos.iva_pct is None ==> item.iva_pct == producto.unwrap().iva_pct)
                &&& (datos.markup_pct is Some ==> item.markup_pct == datos.markup_pct.unwrap())
                &&& (datos.markup_pct is None ==> item.markup_pct == producto.unwrap().markup_pct)
                &&& item.precio_final_centavos == redondeo_a_multiplo(
                    precio_final(
                        item.costo_centavos as int,
                        item.costo_incluye_iva,
                        item.iva_pct as int,
                        item.markup_pct as int,
                    ),
                    redondeo_centavos as int,
                )
            },
    {
        if let Err(e) = validar_datos_item(datos) {
            return Err(e);
        }
        if self.estado != EstadoRecepcion::Borrador {
            return Err(conflicto("solo se pueden cargar ítems en una recepción en borrador"));
        }
        let producto = match producto {
            Some(p) => p,
            None => return Err(validacion("producto inexistente o inactivo")),
        };
        if producto.controla_vencimiento && datos.vencimiento.is_none() {
            let mut m = texto("el producto \"");
            agregar_texto(&mut m, producto.nombre.as_str());
            agregar_texto(&mut m, "\" controla vencimiento: la fecha es obligatoria");
            return Err(ErrorApi::Validacion(m));
        }
        let incluye = match datos.costo_incluye_iva {
            Some(b) => b,
            None => match self.precios_con_iva {
                Some(b) => b,
                None => true,
            },
        };
        let iva = match datos.iva_pct {
            Some(v) => v,
            None => producto.iva_pct,
        };
        let markup = match datos.markup_pct {
            Some(v) => v,
            None => producto.markup_pct,
        };
        if iva < -99999 || iva > 99999 || markup < -99999 || markup > 99999 {
            return Err(ErrorApi::Interno(texto("porcentaje fuera del rango de NUMERIC(5,2)")));
        }
        let precio = match calcular_precio_final_centavos(datos.costo_centavos, incluye, iva, markup) {
            Ok(p) => p,
            Err(e) => return Err(e),
        };
        let precio_final_centavos = redondear_a_multiplo_centavos(precio, redondeo_centavos);
        let nuevo = ItemRecepcion {
            id: id_nuevo,
            producto_id: datos.producto_id,
            cantidad: datos.cantidad,
            costo_centavos: datos.costo_centavos,
            costo_incluye_iva: incluye,
            iva_pct: iva,
            markup_pct: markup,
            precio_final_centavos,
            vencimiento: datos.vencimiento,
            etiquetado: false,
        };
        let ghost viejos = self.items@;
        proof {
            lema_con_item_unicos(viejos, nuevo);
        }
        let mut k: usize = 0;
        while k < self.items.len()
            invariant
                self.items@ == viejos,
                0 <= k <= viejos.len(),
                forall|j: int| 0 <= j < k ==> (#[trigger] viejos[j]).producto_id != nuevo.producto_id,
            ensures
                self.items@ == viejos,
                0 <= k <= viejos.len(),
                forall|j: int| 0 <= j < k ==> (#[trigger] viejos[j]).producto_id != nuevo.producto_id,
                k < viejos.len() ==> viejos[k as int].producto_id == nuevo.producto_id,
            decreases viejos.len() - k,
        {
            if self.items[k].producto_id == nuevo.producto_id {
                break;
            }
            k = k + 1;
        }
        let guardado = if k < self.items.len() {
            proof {
                lema_posicion_unica(viejos, k as int);
            }
            let previo = self.items[k];
            let g = ItemRecepcion { id: previo.id, etiquetado: previo.etiquetado, ..nuevo };
            self.items.set(k, g);
            g
        } else {
            assert(!contiene_producto(viejos, nuevo.producto_id));
            self.items.push(nuevo);
            nuevo
        };
        proof {
            assert(self.items@ =~= con_item(viejos, nuevo));
            lema_posicion_unica(self.items@, k as int);
            assert(porcentajes_guardados(self.items@));
        }
        Ok(ItemRecepcion { etiquetado: false, ..guardado })
    }
}


proof fn lema_sin_producto(s: Seq<ItemRecepcion>, p: u128)
    ensures
        forall|k: int|
            0 <= k < sin_producto(s, p).len() ==> exists|j: int|
                0 <= j < s.len() && #[trigger] sin_producto(s, p)[k] == s[j],
        forall|k: int| 0 <= k < sin_producto(s, p).len() ==> (#[trigger] sin_producto(s, p)[k]).producto_id != p,
        productos_unicos(s) ==> productos_unicos(sin_producto(s, p)),
        porcentajes_guardados(s) ==> porcentajes_guardados(sin_producto(s, p)),
        !contiene_producto(s, p) ==> sin_producto(s, p) == s,
    decreases s.len(),
{
    if s.len() > 0 {
        let previo = s.drop_last();
        lema_sin_producto(previo, p);
        let r = sin_producto(s, p);
        let rp = sin_producto(previo, p);
        assert forall|k: int| 0 <= k < r.len() implies exists|j: int| 0 <= j < s.len() && #[trigger] r[k] == s[j] by {
            if k < rp.len() {
                let j = choose|j: int| 0 <= j < previo.len() && rp[k] == previo[j];
                assert(r[k] == s[j]);
            } else {
                assert(r[k] == s[s.len() - 1]);
            }
        }
        if productos_unicos(s) {
            assert forall|i: int, j: int| 0 <= i < previo.len() && 0 <= j < previo.len() && i != j
                implies (#[trigger] previo[i]).producto_id != (#[trigger] previo[j]).producto_id by {
                assert(previo[i] == s[i] && previo[j] == s[j]);
            }
            if s.last().producto_id != p {
                assert forall|i: int, j: int| 0 <= i < r.len() && 0 <= j < r.len() && i != j
                    implies (#[trigger] r[i]).producto_id != (#[trigger] r[j]).producto_id by {
                    if i == rp.len() || j == rp.len() {
                        let o = if i == rp.len() { j } else { i };
                        let w = choose|w: int| 0 <= w < previo.len() && rp[o] == previo[w];
                        assert(s[w] == previo[w]);
                        assert(s[s.len() - 1].producto_id != s[w].producto_id);
                    }
                }
            }
        }
        if porcentajes_guardados(s) {
            assert forall|k: int| 0 <= k < r.len() implies porcentaje_valido((#[trigger] r[k]).iva_pct)
                && porcentaje_valido(r[k].markup_pct) by {
                let j = choose|j: int| 0 <= j < s.len() && r[k] == s[j];
            }
        }
        if !contiene_producto(s, p) {
            assert(s[s.len() - 1].producto_id != p);
            assert(!contiene_producto(previo, p)) by {
                if contiene_producto(previo, p) {
                    let k = choose|k: int| 0 <= k < previo.len() && (#[trigger] previo[k]).producto_id == p;
                    assert(s[k].producto_id == p);
                }
            }
            assert(s == previo.push(s.last()));
        }
    }
}

impl Recepcion {
    /// Quita el ítem de un producto de una recepción en borrador (si no lo
    /// tiene, no hay nada que quitar).
    pub fn quitar_item(&mut self, producto_id: u128) -> (r: Result<(), ErrorApi>)
        requires
            recepcion_valida(old(self).items@),
        ensures
            recepcion_valida(final(self).items@),
            final(self).id == old(self).id,
            final(self).estado == old(self).estado,
            final(self).precios_con_iva == old(self).precios_con_iva,
            old(self).estado != EstadoRecepcion::Borrador ==> (r matches Err(e) && es_conflicto(
                e,
                "solo se pueden quitar ítems de una recepción en borrador"@,
            ) && final(self).items@ == old(self).items@),
            old(self).estado == EstadoRecepcion::Borrador ==> (r is Ok && final(self).items@ == sin_producto(
                old(self).items@,
                producto_id,
            )),
    {
        if self.estado != EstadoRecepcion::Borrador {
            return Err(conflicto("solo se pueden quitar ítems de una recepción en borrador"));
        }
        let ghost viejos = self.items@;
        let mut quedan: Vec<ItemRecepcion> = Vec::new();
        let mut i: usize = 0;
        while i < self.items.len()
            invariant
                self.items@ == viejos,
                0 <= i <= viejos.len(),
                quedan@ == sin_producto(viejos.take(i as int), producto_id),
            decreases viejos.len() - i,
        {
            proof {
                assert(viejos.take(i + 1).drop_last() =~= viejos.take(i as int));
            }
            let it = self.items[i];
            if it.producto_id != producto_id {
                quedan.push(it);
            }
            i = i + 1;
        }
        proof {
            assert(viejos.take(viejos.len() as int) =~= viejos);
            lema_sin_producto(viejos, producto_id);
        }
        self.items = quedan;
        Ok(())
    }
}

/// Lo que Compras lee del producto de cada ítem al confirmar.
#[derive(Debug, Clone)]
pub struct DatosProductoConfirmacion {
    pub nombre: String,
    pub controla_vencimiento: bool,
    /// Precio vigente antes de la confirmación (`None` si nunca tuvo).
    pub precio_actual_centavos: Option<i64>,
}

/// Lo que la confirmación asienta por cada ítem: ledger de precios y
/// proyección del producto, reindexado del fiado pendiente y entrada de stock.
#[derive(Debug, Clone, Copy, PartialEq, Eq, Structural)]
pub struct AsientoConfirmacion {
    pub item_id: u128,
    pub producto_id: u128,
    pub cantidad: i64,
    pub precio_final_centavos: i64,
    /// Costo unitario con IVA incluido.
    pub costo_normalizado_centavos: i64,
    pub precio_anterior_centavos: Option<i64>,
    /// Fecha del lote: solo si el producto controla vencimiento.
    pub vencimiento_lote: Option<i32>,
}

/// Resultado de pedir la confirmación.
#[derive(Debug, Clone)]
pub enum ResultadoConfirmacion {
    /// No estaba en borrador: reintento exitoso sin efecto.
    YaEstabaConfirmada(EstadoRecepcion),
    /// Se confirmó: lo que hay que asentar, en el orden de los ítems.
    Confirmada(Vec<AsientoConfirmacion>),
}

/// El ítem `i` es de un producto que controla vencimiento y no tiene fecha.
pub open spec fn falta_fecha(items: Seq<ItemRecepcion>, datos: Seq<DatosProductoConfirmacion>, i: int) -> bool {
    datos[i].controla_vencimiento && items[i].vencimiento is None
}

/// Mensaje de un ítem sin fecha al confirmar.
pub open spec fn mensaje_falta_fecha_confirmacion(nombre: Seq<char>) -> Seq<char> {
    "el producto \""@ + nombre + "\" controla vencimiento y su ítem no tiene fecha"@
}

/// El costo con IVA del ítem entra en 64 bits.
pub open spec fn costo_normalizable(it: ItemRecepcion) -> bool {
    entra_en_i64(costo_con_iva(it.costo_centavos as int, it.costo_incluye_iva, it.iva_pct as int))
}

/// El asiento que corresponde a un ítem confirmado.
pub open spec fn asiento_de(it: ItemRecepcion, d: DatosProductoConfirmacion) -> AsientoConfirmacion {
    AsientoConfirmacion {
        item_id: it.id,
        producto_id: it.producto_id,
        cantidad: it.cantidad,
        precio_final_centavos: it.precio_final_centavos,
        costo_normalizado_centavos: costo_con_iva(it.costo_centavos as int, it.costo_incluye_iva, it.iva_pct as int) as i64,
        precio_anterior_centavos: d.precio_actual_centavos,
        vencimiento_lote: if d.controla_vencimiento {
            it.vencimiento
        } else {
            None
        },
    }
}

impl Recepcion {
    /// Confirma una recepción en borrador: todo o nada. Decide los asientos de
    /// cada ítem y pasa la recepción a confirmada. Idempotente: si ya no está
    /// en borrador devuelve su estado sin tocar nada.
    pub fn confirmar(&mut self, datos: &Vec<DatosProductoConfirmacion>) -> (r: Result<ResultadoConfirmacion, ErrorApi>)
        requires
            recepcion_valida(old(self).items@),
            old(self).estado == EstadoRecepcion::Borrador ==> datos@.len() == old(self).items@.len(),
        ensures
            final(self).id == old(self).id,
            final(self).items@ == old(self).items@,
            final(self).precios_con_iva == old(self).precios_con_iva,
            r is Err ==> final(self).estado == old(self).estado,
            r is Ok ==> final(self).estado != EstadoRecepcion::Borrador,
            old(self).estado != EstadoRecepcion::Borrador ==> (r == Ok::<ResultadoConfirmacion, ErrorApi>(
                ResultadoConfirmacion::YaEstabaConfirmada(old(self).estado),
            ) && final(self).estado == old(self).estado),
            old(self).estado == EstadoRecepcion::Borrador ==> {
                let items = old(self).items@;
                &&& items.len() == 0 ==> (r matches Err(e) && es_validacion(
                    e,
                    "no se puede confirmar una recepción sin ítems"@,
                ))
                &&& forall|i: int|
                    0 <= i < items.len() && #[trigger] falta_fecha(items, datos@, i) && (forall|j: int|
                        0 <= j < i ==> !falta_fecha(items, datos@, j)) ==> (r matches Err(e) && es_validacion(
                        e,
                        mensaje_falta_fecha_confirmacion(datos@[i].nombre@),
                    ))
                &&& items.len() > 0 && (forall|i: int| 0 <= i < items.len() ==> !falta_fecha(items, datos@, i))
                    && (exists|i: int| 0 <= i < items.len() && !costo_normalizable(#[trigger] items[i])) ==> (
                r matches Err(e) && es_validacion(e, "el costo calculado desborda"@))
                &&& items.len() > 0 && (forall|i: int| 0 <= i < items.len() ==> !falta_fecha(items, datos@, i))
                    && (forall|i: int| 0 <= i < items.len() ==> costo_normalizable(#[trigger] items[i])) ==> {
                    &&& final(self).estado == EstadoRecepcion::Confirmada
                    &&& r matches Ok(ResultadoConfirmacion::Confirmada(a)) && a@.len() == items.len() && forall|i: int|
                        0 <= i < items.len() ==> #[trigger] a@[i] == asiento_de(items[i], datos@[i])
                }
            },
    {
        if self.estado != EstadoRecepcion::Borrador {
            return Ok(ResultadoConfirmacion::YaEstabaConfirmada(self.estado));
        }
        let n = self.items.len();
        if n == 0 {
            return Err(validacion("no se puede confirmar una recepción sin ítems"));
        }
        let ghost items = self.items@;
        let mut i: usize = 0;
        while i < n
            invariant
                self.items@ == items,
                old(self).items@ == items,
                self.estado == EstadoRecepcion::Borrador,
                old(self).estado == EstadoRecepcion::Borrador,
                self.id == old(self).id,
                self.precios_con_iva == old(self).precios_con_iva,
                n == items.len(),
                datos@.len() == n,
                0 <= i <= n,
                forall|j: int| 0 <= j < i ==> !falta_fecha(items, datos@, j),
            decreases n - i,
        {
            let d = &datos[i];
            if d.controla_vencimiento && self.items[i].vencimiento.is_none() {
                assert(falta_fecha(items, datos@, i as int));
                let mut m = texto("el producto \"");
                agregar_texto(&mut m, d.nombre.as_str());
                agregar_texto(&mut m, "\" controla vencimiento y su ítem no tiene fecha");
                return Err(ErrorApi::Validacion(m));
            }
            i = i + 1;
        }
        let mut asientos: Vec<AsientoConfirmacion> = Vec::new();
        let mut i: usize = 0;
        while i < n
            invariant
                self.items@ == items,
                old(self).items@ == items,
                self.estado == EstadoRecepcion::Borrador,
                old(self).estado == EstadoRecepcion::Borrador,
                self.id == old(self).id,
                self.precios_con_iva == old(self).precios_con_iva,
                n == items.len(),
                n > 0,
                datos@.len() == n,
                recepcion_valida(items),
                forall|j: int| 0 <= j < n ==> !falta_fecha(items, datos@, j),
                0 <= i <= n,
                asientos@.len() == i,
                forall|j: int| 0 <= j < i ==> costo_normalizable(#[trigger] items[j]),
                forall|j: int| 0 <= j < i ==> #[trigger] asientos@[j] == asiento_de(items[j], datos@[j]),
            decreases n - i,
        {
            let it = self.items[i];
            let d = &datos[i];
            assert(porcentaje_valido(items[i as int].iva_pct));
            let costo = match normalizar_costo_con_iva_centavos(it.costo_centavos, it.costo_incluye_iva, it.iva_pct) {
                Ok(c) => c,
                Err(e) => {
                    assert(!costo_normalizable(items[i as int]));
                    return Err(e);
                },
            };
            let lote = if d.controla_vencimiento {
                it.vencimiento
            } else {
                None
            };
            asientos.push(
                AsientoConfirmacion {
                    item_id: it.id,
                    producto_id: it.producto_id,
                    cantidad: it.cantidad,
                    precio_final_centavos: it.precio_final_centavos,
                    costo_normalizado_centavos: costo,
                    precio_anterior_centavos: d.precio_actual_centavos,
                    vencimiento_lote: lote,
                },
            );
            i = i + 1;
        }
        self.estado = EstadoRecepcion::Confirmada;
        Ok(ResultadoConfirmacion::Confirmada(asientos))
    }
}

/// Volver a cargar el mismo pedido no duplica ni cambia nada: el ítem del
/// producto queda con la misma identidad y los mismos valores.
pub proof fn ley_recarga_idempotente(items: Seq<ItemRecepcion>, nuevo: ItemRecepcion, otro_id: u128)
    requires
        productos_unicos(items),
    ensures
        con_item(con_item(items, nuevo), ItemRecepcion { id: otro_id, ..nuevo }) == con_item(items, nuevo),
{
    let r = con_item(items, nuevo);
    let p = nuevo.producto_id;
    lema_con_item_unicos(items, nuevo);
    let k = if contiene_producto(items, p) {
        posicion(items, p)
    } else {
        items.len() as int
    };
    assert(r[k].producto_id == p);
    lema_posicion_unica(r, k);
    assert(con_item(r, ItemRecepcion { id: otro_id, ..nuevo }) =~= r);
}

/// Cascada del IVA del costo: lo que dice el pedido manda sobre el proveedor;
/// solo si el pedido no lo dice vale el del proveedor, y sin proveedor el
/// costo se toma con IVA incluido. Un costo que ya incluye IVA solo recibe el
/// markup: el precio es el costo por (1 + markup), redondeado a centavos.
pub proof fn ley_el_pedido_manda_sobre_el_proveedor(
    datos: CargarItem,
    precios_con_iva: Option<bool>,
    producto: ProductoParaCompra,
    redondeo: int,
    id: u128,
)
    ensures
        datos.costo_incluye_iva is Some ==> item_calculado(datos, precios_con_iva, producto, redondeo, id).costo_incluye_iva
            == datos.costo_incluye_iva.unwrap(),
        datos.costo_incluye_iva is None && precios_con_iva is Some ==> item_calculado(
            datos,
            precios_con_iva,
            producto,
            redondeo,
            id,
        ).costo_incluye_iva == precios_con_iva.unwrap(),
        datos.costo_incluye_iva is None && precios_con_iva is None ==> item_calculado(
            datos,
            precios_con_iva,
            producto,
            redondeo,
            id,
        ).costo_incluye_iva,
        datos.costo_incluye_iva == Some(true) ==> precio_sin_redondeo(datos, precios_con_iva, producto)
            == redondeo_mitad_lejos(
            datos.costo_centavos * (10000 + match datos.markup_pct {
                Some(m) => m as int,
                None => producto.markup_pct as int,
            }),
            10000,
        ),
{
}

/// Quitar el producto recién cargado deja la recepción como estaba.
pub proof fn ley_quitar_deshace_carga(items: Seq<ItemRecepcion>, nuevo: ItemRecepcion)
    requires
        !contiene_producto(items, nuevo.producto_id),
    ensures
        sin_producto(con_item(items, nuevo), nuevo.producto_id) == items,
{
    let r = con_item(items, nuevo);
    assert(r.drop_last() =~= items);
    lema_sin_producto(items, nuevo.producto_id);
}


/// Alta de proveedor: exige `gestionar_proveedores` y un nombre (que se
/// guarda recortado). Si no se indica, el proveedor pasa precios con IVA.
pub fn validar_alta_proveedor(usuario: &UsuarioActual, nombre: &str, precios_con_iva: Option<bool>) -> (r: Result<
    (String, bool),
    ErrorApi,
>)
    ensures
        !tiene_permiso(*usuario, "gestionar_proveedores"@) ==> (r matches Err(e) && es_prohibido(
            e,
            "gestionar_proveedores"@,
        )),
        tiene_permiso(*usuario, "gestionar_proveedores"@) && recortado(nombre@).len() == 0 ==> (r matches Err(e)
            && es_validacion(e, "el nombre es obligatorio"@)),
        tiene_permiso(*usuario, "gestionar_proveedores"@) && recortado(nombre@).len() > 0 ==> (r matches Ok(t) && t.0@
            == recortado(nombre@) && t.1 == match precios_con_iva {
            Some(b) => b,
            None => true,
        }),
{
    if let Err(e) = usuario.exigir(GESTIONAR_PROVEEDORES) {
        return Err(e);
    }
    let n = match obligatorio(nombre, "el nombre es obligatorio") {
        Ok(n) => n,
        Err(e) => return Err(e),
    };
    let con_iva = match precios_con_iva {
        Some(b) => b,
        None => true,
    };
    Ok((n, con_iva))
}

/// El proveedor de una recepción nueva, si se indica, tiene que existir y
/// estar activo.
pub fn exigir_proveedor_activo(proveedor_indicado: bool, activo: bool) -> (r: Result<(), ErrorApi>)
    ensures
        r is Ok <==> (!proveedor_indicado || activo),
        r matches Err(e) ==> es_validacion(e, "proveedor inexistente o inactivo"@),
{
    if proveedor_indicado && !activo {
        Err(validacion("proveedor inexistente o inactivo"))
    } else {
        Ok(())
    }
}

} // verus!
