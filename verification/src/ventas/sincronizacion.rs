//! Sincronización de ventas que llegan YA CONFIRMADAS desde el dispositivo:
//! validación del documento y armado de los renglones con sus snapshots.

use vstd::prelude::*;
use crate::aritmetica::entra_en_i64;
use crate::clientes::ItemFiado;
use crate::error::{es_validacion, texto, validacion, ErrorApi};
use crate::texto::{agregar_texto, decimal_con_signo, texto_entero};
use crate::ventas::MedioPago;

verus! {

/// Un ítem de la venta tal como lo manda el dispositivo (cantidad en
/// milésimas, IVA en centésimos). Los snapshots que faltan los completa el
/// catálogo.
#[derive(Debug, Clone)]
pub struct ItemVenta {
    pub producto_id: u128,
    pub producto_nombre: Option<String>,
    pub precio_unitario_centavos: i64,
    pub cantidad: i64,
    pub iva_pct: Option<i64>,
    pub descuento_centavos: i64,
    pub descuento_motivo: Option<String>,
    pub subtotal_centavos: i64,
}

/// Un pago de la venta.
#[derive(Debug, Clone)]
pub struct PagoVenta {
    pub medio: MedioPago,
    pub monto_centavos: i64,
    pub referencia_externa: Option<String>,
}

/// La venta a sincronizar. El UUID lo genera el dispositivo y es la llave
/// de la idempotencia.
#[derive(Debug, Clone)]
pub struct SincronizarVenta {
    pub id: u128,
    pub sesion_id: u128,
    pub cliente_id: Option<u128>,
    pub total_centavos: i64,
    pub descuento_centavos: i64,
    pub descuento_motivo: Option<String>,
    pub items: Vec<ItemVenta>,
    pub pagos: Vec<PagoVenta>,
}

/// Σ de los montos de los pagos.
pub open spec fn suma_pagos(pagos: Seq<PagoVenta>) -> int
    decreases pagos.len(),
{
    if pagos.len() == 0 {
        0
    } else {
        suma_pagos(pagos.drop_last()) + pagos.last().monto_centavos
    }
}

/// Σ de los pagos con cuenta corriente.
pub open spec fn suma_cuenta_corriente(pagos: Seq<PagoVenta>) -> int
    decreases pagos.len(),
{
    if pagos.len() == 0 {
        0
    } else {
        suma_cuenta_corriente(pagos.drop_last()) + if pagos.last().medio == MedioPago::CuentaCorriente {
            pagos.last().monto_centavos as int
        } else {
            0
        }
    }
}

/// Σ de los subtotales de los ítems.
pub open spec fn suma_subtotales(items: Seq<ItemVenta>) -> int
    decreases items.len(),
{
    if items.len() == 0 {
        0
    } else {
        suma_subtotales(items.drop_last()) + items.last().subtotal_centavos
    }
}

/// Cada suma parcial de los pagos entra en 64 bits.
pub open spec fn pagos_sumables(pagos: Seq<PagoVenta>) -> bool {
    forall|i: int| 0 <= i <= pagos.len() ==> entra_en_i64(#[trigger] suma_pagos(pagos.take(i)))
}

/// Cada suma parcial de los pagos con cuenta corriente entra en 64 bits.
pub open spec fn cuenta_corriente_sumable(pagos: Seq<PagoVenta>) -> bool {
    forall|i: int| 0 <= i <= pagos.len() ==> entra_en_i64(#[trigger] suma_cuenta_corriente(pagos.take(i)))
}

/// Cada suma parcial de los subtotales entra en 64 bits.
pub open spec fn subtotales_sumables(items: Seq<ItemVenta>) -> bool {
    forall|i: int| 0 <= i <= items.len() ==> entra_en_i64(#[trigger] suma_subtotales(items.take(i)))
}

/// Ninguna de las sumas que hace la validación desborda, en el orden en que
/// se hacen (una validación que falla antes corta las siguientes).
pub open spec fn venta_sin_desborde(v: SincronizarVenta) -> bool {
    let items = v.items@;
    let pagos = v.pagos@;
    items.len() == 0 || pagos.len() == 0 || v.total_centavos < 0 || v.descuento_centavos < 0 || (
    pagos_sumables(pagos) && (suma_pagos(pagos) != v.total_centavos || (subtotales_sumables(items)
        && entra_en_i64(suma_subtotales(items) - v.descuento_centavos) && (suma_subtotales(items)
        - v.descuento_centavos != v.total_centavos || cuenta_corriente_sumable(pagos)))))
}

/// Un ítem con cantidad no positiva o con montos negativos.
pub open spec fn item_invalido(it: ItemVenta) -> bool {
    it.cantidad <= 0 || it.precio_unitario_centavos < 0 || it.descuento_centavos < 0 || it.subtotal_centavos < 0
}

/// El error de un ítem inválido.
pub open spec fn error_de_item(it: ItemVenta) -> Seq<char> {
    if it.cantidad <= 0 {
        "cantidades deben ser positivas"@
    } else {
        "montos de ítem negativos"@
    }
}

/// El error del primer ítem inválido, si hay alguno.
pub open spec fn primer_error_de_item(items: Seq<ItemVenta>) -> Option<Seq<char>>
    decreases items.len(),
{
    if items.len() == 0 {
        None
    } else {
        match primer_error_de_item(items.drop_last()) {
            Some(m) => Some(m),
            None => if item_invalido(items.last()) {
                Some(error_de_item(items.last()))
            } else {
                None
            },
        }
    }
}

/// Mensaje de pagos que no suman el total.
pub open spec fn mensaje_pagos(suma: int, total: int) -> Seq<char> {
    "la suma de pagos ("@ + decimal_con_signo(suma) + ") no coincide con el total ("@ + decimal_con_signo(total)
        + ")"@
}

/// Mensaje de un total que no cierra con los subtotales y el descuento.
pub open spec fn mensaje_total(total: int, suma: int, descuento: int) -> Seq<char> {
    "el total ("@ + decimal_con_signo(total) + ") no coincide con Σ subtotales ("@ + decimal_con_signo(suma)
        + ") − descuento ("@ + decimal_con_signo(descuento) + ")"@
}

/// El primer error de validación de la venta, en el orden en que se
/// controla; `None` si la venta es válida.
pub open spec fn error_de_venta(v: SincronizarVenta) -> Option<Seq<char>> {
    let items = v.items@;
    let pagos = v.pagos@;
    let cc = suma_cuenta_corriente(pagos);
    if items.len() == 0 {
        Some("la venta no tiene ítems"@)
    } else if pagos.len() == 0 {
        Some("la venta no tiene pagos"@)
    } else if v.total_centavos < 0 || v.descuento_centavos < 0 {
        Some("montos negativos"@)
    } else if suma_pagos(pagos) != v.total_centavos {
        Some(mensaje_pagos(suma_pagos(pagos), v.total_centavos as int))
    } else if suma_subtotales(items) - v.descuento_centavos != v.total_centavos {
        Some(mensaje_total(v.total_centavos as int, suma_subtotales(items), v.descuento_centavos as int))
    } else if cc > 0 && v.cliente_id is None {
        Some("el pago con cuenta corriente requiere un cliente identificado"@)
    } else if cc > 0 && cc != v.total_centavos {
        Some("el fiado no se puede combinar con otro medio de pago en el mismo ticket"@)
    } else {
        primer_error_de_item(items)
    }
}

/// Σ pagos, con sus sumas parciales en 64 bits.
fn sumar_pagos(pagos: &Vec<PagoVenta>) -> (r: i64)
    requires
        pagos_sumables(pagos@),
    ensures
        r == suma_pagos(pagos@),
{
    let mut s: i64 = 0;
    let mut i: usize = 0;
    assert(pagos@.take(0) =~= Seq::<PagoVenta>::empty());
    while i < pagos.len()
        invariant
            0 <= i <= pagos@.len(),
            pagos_sumables(pagos@),
            s == suma_pagos(pagos@.take(i as int)),
        decreases pagos@.len() - i,
    {
        assert(pagos@.take(i + 1).drop_last() =~= pagos@.take(i as int));
        assert(entra_en_i64(suma_pagos(pagos@.take(i + 1))));
        s = s + pagos[i].monto_centavos;
        i = i + 1;
    }
    assert(pagos@.take(pagos@.len() as int) =~= pagos@);
    s
}

/// Σ pagos con cuenta corriente, con sus sumas parciales en 64 bits.
fn sumar_cuenta_corriente(pagos: &Vec<PagoVenta>) -> (r: i64)
    requires
        cuenta_corriente_sumable(pagos@),
    ensures
        r == suma_cuenta_corriente(pagos@),
{
    let mut s: i64 = 0;
    let mut i: usize = 0;
    assert(pagos@.take(0) =~= Seq::<PagoVenta>::empty());
    while i < pagos.len()
        invariant
            0 <= i <= pagos@.len(),
            cuenta_corriente_sumable(pagos@),
            s == suma_cuenta_corriente(pagos@.take(i as int)),
        decreases pagos@.len() - i,
    {
        assert(pagos@.take(i + 1).drop_last() =~= pagos@.take(i as int));
        assert(entra_en_i64(suma_cuenta_corriente(pagos@.take(i + 1))));
        if pagos[i].medio == MedioPago::CuentaCorriente {
            s = s + pagos[i].monto_centavos;
        }
        i = i + 1;
    }
    assert(pagos@.take(pagos@.len() as int) =~= pagos@);
    s
}

/// Σ subtotales, con sus sumas parciales en 64 bits.
fn sumar_subtotales(items: &Vec<ItemVenta>) -> (r: i64)
    requires
        subtotales_sumables(items@),
    ensures
        r == suma_subtotales(items@),
{
    let mut s: i64 = 0;
    let mut i: usize = 0;
    assert(items@.take(0) =~= Seq::<ItemVenta>::empty());
    while i < items.len()
        invariant
            0 <= i <= items@.len(),
            subtotales_sumables(items@),
            s == suma_subtotales(items@.take(i as int)),
        decreases items@.len() - i,
    {
        assert(items@.take(i + 1).drop_last() =~= items@.take(i as int));
        assert(entra_en_i64(suma_subtotales(items@.take(i + 1))));
        s = s + items[i].subtotal_centavos;
        i = i + 1;
    }
    assert(items@.take(items@.len() as int) =~= items@);
    s
}

/// Valida el documento de una venta sincronizada: ítems y pagos presentes,
/// montos no negativos, Σ pagos = total, total = Σ subtotales − descuento,
/// el fiado con cliente identificado y sin mezclarse con otros medios, y
/// cada ítem con cantidad positiva y montos no negativos. Devuelve el monto
/// pagado con cuenta corriente.
pub fn validar_venta(v: &SincronizarVenta) -> (r: Result<i64, ErrorApi>)
    requires
        venta_sin_desborde(*v),
    ensures
        error_de_venta(*v) matches Some(m) ==> (r matches Err(e) && es_validacion(e, m)),
        error_de_venta(*v) is None ==> r == Ok::<i64, ErrorApi>(suma_cuenta_corriente(v.pagos@) as i64),
        r is Ok ==> entra_en_i64(suma_cuenta_corriente(v.pagos@)),
{
    if v.items.len() == 0 {
        return Err(validacion("la venta no tiene ítems"));
    }
    if v.pagos.len() == 0 {
        return Err(validacion("la venta no tiene pagos"));
    }
    if v.total_centavos < 0 || v.descuento_centavos < 0 {
        return Err(validacion("montos negativos"));
    }
    let suma_pagos = sumar_pagos(&v.pagos);
    if suma_pagos != v.total_centavos {
        let mut m = texto("la suma de pagos (");
        agregar_texto(&mut m, texto_entero(suma_pagos).as_str());
        agregar_texto(&mut m, ") no coincide con el total (");
        agregar_texto(&mut m, texto_entero(v.total_centavos).as_str());
        agregar_texto(&mut m, ")");
        return Err(ErrorApi::Validacion(m));
    }
    let suma_subtotales = sumar_subtotales(&v.items);
    if suma_subtotales - v.descuento_centavos != v.total_centavos {
        let mut m = texto("el total (");
        agregar_texto(&mut m, texto_entero(v.total_centavos).as_str());
        agregar_texto(&mut m, ") no coincide con Σ subtotales (");
        agregar_texto(&mut m, texto_entero(suma_subtotales).as_str());
        agregar_texto(&mut m, ") − descuento (");
        agregar_texto(&mut m, texto_entero(v.descuento_centavos).as_str());
        agregar_texto(&mut m, ")");
        return Err(ErrorApi::Validacion(m));
    }
    let cc = sumar_cuenta_corriente(&v.pagos);
    if cc > 0 && v.cliente_id.is_none() {
        return Err(validacion("el pago con cuenta corriente requiere un cliente identificado"));
    }
    if cc > 0 && cc != v.total_centavos {
        return Err(validacion("el fiado no se puede combinar con otro medio de pago en el mismo ticket"));
    }
    let mut i: usize = 0;
    assert(v.items@.take(0) =~= Seq::<ItemVenta>::empty());
    while i < v.items.len()
        invariant
            0 <= i <= v.items@.len(),
            primer_error_de_item(v.items@.take(i as int)) is None,
            error_de_venta(*v) == primer_error_de_item(v.items@),
            cc == suma_cuenta_corriente(v.pagos@),
        decreases v.items@.len() - i,
    {
        assert(v.items@.take(i + 1).drop_last() =~= v.items@.take(i as int));
        let it = &v.items[i];
        if it.cantidad <= 0 {
            proof {
                lema_primer_error_prefijo(v.items@, i as int + 1);
            }
            return Err(validacion("cantidades deben ser positivas"));
        }
        if it.precio_unitario_centavos < 0 || it.descuento_centavos < 0 || it.subtotal_centavos < 0 {
            proof {
                lema_primer_error_prefijo(v.items@, i as int + 1);
            }
            return Err(validacion("montos de ítem negativos"));
        }
        i = i + 1;
    }
    assert(v.items@.take(v.items@.len() as int) =~= v.items@);
    Ok(cc)
}

proof fn lema_primer_error_prefijo(items: Seq<ItemVenta>, n: int)
    requires
        0 <= n <= items.len(),
        primer_error_de_item(items.take(n)) is Some,
    ensures
        primer_error_de_item(items) == primer_error_de_item(items.take(n)),
    decreases items.len() - n,
{
    if n < items.len() {
        assert(items.take(n + 1).drop_last() =~= items.take(n));
        lema_primer_error_prefijo(items, n + 1);
    } else {
        assert(items.take(n) =~= items);
    }
}


fn pagos_sumables_exec(pagos: &Vec<PagoVenta>, solo_cuenta_corriente: bool) -> (r: bool)
    ensures
        !solo_cuenta_corriente ==> r == pagos_sumables(pagos@),
        solo_cuenta_corriente ==> r == cuenta_corriente_sumable(pagos@),
{
    let mut s: i64 = 0;
    let mut i: usize = 0;
    assert(pagos@.take(0) =~= Seq::<PagoVenta>::empty());
    while i < pagos.len()
        invariant
            0 <= i <= pagos@.len(),
            !solo_cuenta_corriente ==> s == suma_pagos(pagos@.take(i as int)),
            solo_cuenta_corriente ==> s == suma_cuenta_corriente(pagos@.take(i as int)),
            forall|j: int| 0 <= j <= i ==> (!solo_cuenta_corriente ==> entra_en_i64(#[trigger] suma_pagos(pagos@.take(j)))),
            forall|j: int| 0 <= j <= i ==> (solo_cuenta_corriente ==> entra_en_i64(#[trigger] suma_cuenta_corriente(pagos@.take(j)))),
        decreases pagos@.len() - i,
    {
        assert(pagos@.take(i + 1).drop_last() =~= pagos@.take(i as int));
        let cuenta = !solo_cuenta_corriente || pagos[i].medio == MedioPago::CuentaCorriente;
        if cuenta {
            match s.checked_add(pagos[i].monto_centavos) {
                Some(t) => {
                    s = t;
                },
                None => {
                    proof {
                        if solo_cuenta_corriente {
                            assert(!entra_en_i64(suma_cuenta_corriente(pagos@.take(i + 1))));
                        } else {
                            assert(!entra_en_i64(suma_pagos(pagos@.take(i + 1))));
                        }
                    }
                    return false;
                },
            }
        }
        i = i + 1;
    }
    assert(pagos@.take(pagos@.len() as int) =~= pagos@);
    true
}

fn subtotales_sumables_exec(items: &Vec<ItemVenta>) -> (r: bool)
    ensures
        r == subtotales_sumables(items@),
{
    let mut s: i64 = 0;
    let mut i: usize = 0;
    assert(items@.take(0) =~= Seq::<ItemVenta>::empty());
    while i < items.len()
        invariant
            0 <= i <= items@.len(),
            s == suma_subtotales(items@.take(i as int)),
            forall|j: int| 0 <= j <= i ==> entra_en_i64(#[trigger] suma_subtotales(items@.take(j))),
        decreases items@.len() - i,
    {
        assert(items@.take(i + 1).drop_last() =~= items@.take(i as int));
        match s.checked_add(items[i].subtotal_centavos) {
            Some(t) => {
                s = t;
            },
            None => {
                assert(!entra_en_i64(suma_subtotales(items@.take(i + 1))));
                return false;
            },
        }
        i = i + 1;
    }
    assert(items@.take(items@.len() as int) =~= items@);
    true
}

/// Verifica en ejecución `venta_sin_desborde`: quien llama descarta así las
/// ventas cuyas sumas no entran en 64 bits.
pub fn venta_calculable(v: &SincronizarVenta) -> (r: bool)
    ensures
        r == venta_sin_desborde(*v),
{
    if v.items.len() == 0 || v.pagos.len() == 0 || v.total_centavos < 0 || v.descuento_centavos < 0 {
        return true;
    }
    if !pagos_sumables_exec(&v.pagos, false) {
        return false;
    }
    let sp = sumar_pagos(&v.pagos);
    if sp != v.total_centavos {
        return true;
    }
    if !subtotales_sumables_exec(&v.items) {
        return false;
    }
    let ss = sumar_subtotales(&v.items);
    if ss < i64::MIN + v.descuento_centavos {
        return false;
    }
    if ss - v.descuento_centavos != v.total_centavos {
        return true;
    }
    pagos_sumables_exec(&v.pagos, true)
}

/// Lo que el catálogo sabe del producto de un ítem.
#[derive(Debug, Clone)]
pub struct ProductoVenta {
    pub nombre: String,
    pub iva_pct: i64,
}

/// Un renglón de venta ya listo para guardar, con sus snapshots resueltos.
#[derive(Debug, Clone)]
pub struct RenglonVenta {
    pub producto_id: u128,
    pub producto_nombre: String,
    pub precio_unitario_centavos: i64,
    pub cantidad: i64,
    pub iva_pct: i64,
    pub descuento_centavos: i64,
    pub descuento_motivo: Option<String>,
    pub subtotal_centavos: i64,
}

/// Lo que hay que asentar de una venta válida.
#[derive(Debug, Clone)]
pub struct PlanVenta {
    pub renglones: Vec<RenglonVenta>,
    /// Renglones del fiado: todos los ítems si se pagó con cuenta corriente.
    pub items_fiado: Vec<ItemFiado>,
}

/// Snapshot: lo que mandó el dispositivo manda; el catálogo completa.
pub open spec fn renglon_de(it: ItemVenta, p: ProductoVenta) -> RenglonVenta {
    RenglonVenta {
        producto_id: it.producto_id,
        producto_nombre: match it.producto_nombre {
            Some(n) => n,
            None => p.nombre,
        },
        precio_unitario_centavos: it.precio_unitario_centavos,
        cantidad: it.cantidad,
        iva_pct: match it.iva_pct {
            Some(v) => v,
            None => p.iva_pct,
        },
        descuento_centavos: it.descuento_centavos,
        descuento_motivo: it.descuento_motivo,
        subtotal_centavos: it.subtotal_centavos,
    }
}

/// El renglón guardado conserva lo que mandó el dispositivo: producto,
/// precio unitario, cantidad, descuento de línea (monto y motivo) y
/// subtotal. El nombre y el IVA son los del dispositivo si los mandó; si no,
/// los del catálogo.
pub proof fn ley_el_renglon_conserva_lo_enviado(it: ItemVenta, p: ProductoVenta)
    ensures
        renglon_de(it, p).producto_id == it.producto_id,
        renglon_de(it, p).precio_unitario_centavos == it.precio_unitario_centavos,
        renglon_de(it, p).cantidad == it.cantidad,
        renglon_de(it, p).descuento_centavos == it.descuento_centavos,
        renglon_de(it, p).descuento_motivo == it.descuento_motivo,
        renglon_de(it, p).subtotal_centavos == it.subtotal_centavos,
        it.producto_nombre is Some ==> renglon_de(it, p).producto_nombre == it.producto_nombre.unwrap(),
        it.producto_nombre is None ==> renglon_de(it, p).producto_nombre == p.nombre,
        it.iva_pct is Some ==> renglon_de(it, p).iva_pct == it.iva_pct.unwrap(),
        it.iva_pct is None ==> renglon_de(it, p).iva_pct == p.iva_pct,
{
}

fn copiar_texto_opcional(t: &Option<String>) -> (r: Option<String>)
    ensures
        r == *t,
{
    match t {
        Some(s) => Some(s.clone()),
        None => None,
    }
}

/// Arma los renglones de una venta con los snapshots resueltos y, si se
/// pagó con cuenta corriente, los renglones del fiado. Un producto que el
/// catálogo no conoce rechaza la venta entera.
pub fn planificar_venta(
    items: &Vec<ItemVenta>,
    catalogo: &Vec<Option<ProductoVenta>>,
    monto_cuenta_corriente: i64,
) -> (r: Result<PlanVenta, ErrorApi>)
    requires
        catalogo@.len() == items@.len(),
    ensures
        (exists|i: int| 0 <= i < items@.len() && #[trigger] catalogo@[i] is None) ==> (r matches Err(e)
            && es_validacion(e, "producto inexistente en la venta"@)),
        (forall|i: int| 0 <= i < items@.len() ==> #[trigger] catalogo@[i] is Some) ==> (r matches Ok(plan) && {
            &&& plan.renglones@.len() == items@.len()
            &&& forall|i: int| 0 <= i < items@.len() ==> #[trigger] plan.renglones@[i] == renglon_de(
                items@[i],
                catalogo@[i].unwrap(),
            )
            &&& monto_cuenta_corriente > 0 ==> plan.items_fiado@.len() == items@.len() && forall|i: int|
                0 <= i < items@.len() ==> #[trigger] plan.items_fiado@[i] == (ItemFiado {
                    producto_id: items@[i].producto_id,
                    producto_nombre: plan.renglones@[i].producto_nombre,
                    cantidad: items@[i].cantidad,
                })
            &&& monto_cuenta_corriente <= 0 ==> plan.items_fiado@.len() == 0
            &&& forall|i: int|
                0 <= i < items@.len() ==> {
                    &&& (#[trigger] plan.renglones@[i]).producto_id == items@[i].producto_id
                    &&& plan.renglones@[i].precio_unitario_centavos == items@[i].precio_unitario_centavos
                    &&& plan.renglones@[i].cantidad == items@[i].cantidad
                    &&& plan.renglones@[i].descuento_centavos == items@[i].descuento_centavos
                    &&& plan.renglones@[i].descuento_motivo == items@[i].descuento_motivo
                    &&& plan.renglones@[i].subtotal_centavos == items@[i].subtotal_centavos
                }
        }),
{
    let mut renglones: Vec<RenglonVenta> = Vec::new();
    let mut fiado: Vec<ItemFiado> = Vec::new();
    let mut i: usize = 0;
    while i < items.len()
        invariant
            0 <= i <= items@.len(),
            catalogo@.len() == items@.len(),
            forall|j: int| 0 <= j < i ==> #[trigger] catalogo@[j] is Some,
            renglones@.len() == i,
            forall|j: int| 0 <= j < i ==> #[trigger] renglones@[j] == renglon_de(items@[j], catalogo@[j].unwrap()),
            monto_cuenta_corriente > 0 ==> fiado@.len() == i,
            monto_cuenta_corriente <= 0 ==> fiado@.len() == 0,
            monto_cuenta_corriente > 0 ==> forall|j: int| 0 <= j < i ==> #[trigger] fiado@[j] == (ItemFiado {
                producto_id: items@[j].producto_id,
                producto_nombre: renglones@[j].producto_nombre,
                cantidad: items@[j].cantidad,
            }),
        decreases items@.len() - i,
    {
        let it = &items[i];
        let p = match &catalogo[i] {
            Some(p) => p,
            None => {
                return Err(validacion("producto inexistente en la venta"));
            },
        };
        let nombre = match &it.producto_nombre {
            Some(n) => n.clone(),
            None => p.nombre.clone(),
        };
        let iva = match it.iva_pct {
            Some(v) => v,
            None => p.iva_pct,
        };
        if monto_cuenta_corriente > 0 {
            fiado.push(ItemFiado { producto_id: it.producto_id, producto_nombre: nombre.clone(), cantidad: it.cantidad });
        }
        renglones.push(
            RenglonVenta {
                producto_id: it.producto_id,
                producto_nombre: nombre,
                precio_unitario_centavos: it.precio_unitario_centavos,
                cantidad: it.cantidad,
                iva_pct: iva,
                descuento_centavos: it.descuento_centavos,
                descuento_motivo: copiar_texto_opcional(&it.descuento_motivo),
                subtotal_centavos: it.subtotal_centavos,
            },
        );
        i = i + 1;
    }
    Ok(PlanVenta { renglones, items_fiado: fiado })
}

} // verus!
