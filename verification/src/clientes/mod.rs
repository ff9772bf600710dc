//! Contexto CLIENTES: libreta de fiado con ledger de cuenta corriente. Saldo
//! global corrido, sin imputación de pagos contra ventas específicas. El
//! límite de crédito SÍ bloquea: excederlo requiere `exceder_limite_credito`.
//! Cada cargo se descompone en renglones por producto que quedan pendientes
//! hasta que un pago (o una condonación) los consume por antigüedad, y que
//! se revalúan cuando el producto cambia de precio.

use vstd::prelude::*;
use crate::aritmetica::{entra_en_i64, lema_potencias, mantisa_maxima, redondear_cociente, redondeo_mitad_lejos};
use crate::error::{es_prohibido, es_validacion, validacion, ErrorApi};
use crate::identidad::permisos::{tiene_permiso, UsuarioActual, EXCEDER_LIMITE_CREDITO, GESTIONAR_CLIENTES};
use crate::texto::{obligatorio, recortado};
use crate::ventas::MedioPago;

verus! {

/// Tipo de movimiento del ledger de cuenta corriente.
#[derive(Debug, Clone, Copy, PartialEq, Eq, Structural)]
pub enum TipoMovimientoCuenta {
    Cargo,
    Pago,
    Ajuste,
}

/// Un renglón de producto de una venta fiada (cantidad en milésimas).
#[derive(Debug, Clone)]
pub struct ItemFiado {
    pub producto_id: u128,
    pub producto_nombre: String,
    pub cantidad: i64,
}

/// Lo que la cuenta de un cliente necesita para decidir un cargo.
#[derive(Debug, Clone, Copy, PartialEq, Eq)]
pub struct CuentaCliente {
    pub saldo_actual_centavos: i64,
    /// `None` = sin límite.
    pub limite_credito_centavos: Option<i64>,
    pub activo: bool,
}

/// El cargo excede el límite de crédito del cliente.
pub open spec fn excede_limite(c: CuentaCliente, monto: int) -> bool {
    c.limite_credito_centavos matches Some(l) && c.saldo_actual_centavos + monto > l
}

/// Decide el cargo de una venta pagada con cuenta corriente: el cliente debe
/// existir y estar activo, y si el cargo lo lleva por encima de su límite el
/// usuario necesita `exceder_limite_credito`. Devuelve el saldo resultante.
pub fn registrar_cargo_de_venta(
    cliente: Option<CuentaCliente>,
    monto_centavos: i64,
    usuario: &UsuarioActual,
) -> (r: Result<i64, ErrorApi>)
    requires
        monto_centavos > 0,
        cliente matches Some(c) ==> entra_en_i64(c.saldo_actual_centavos + monto_centavos),
    ensures
        cliente is None ==> (r matches Err(e) && es_validacion(e, "cliente inexistente"@)),
        cliente matches Some(c) && !c.activo ==> (r matches Err(e) && es_validacion(e, "el cliente está inactivo"@)),
        cliente matches Some(c) && c.activo && excede_limite(c, monto_centavos as int) && !tiene_permiso(
            *usuario,
            "exceder_limite_credito"@,
        ) ==> (r matches Err(e) && es_prohibido(e, "exceder_limite_credito"@)),
        cliente is Some && cliente.unwrap().activo && (!excede_limite(cliente.unwrap(), monto_centavos as int)
            || tiene_permiso(*usuario, "exceder_limite_credito"@)) ==> r == Ok::<i64, ErrorApi>(
            (cliente.unwrap().saldo_actual_centavos + monto_centavos) as i64,
        ),
{
    let c = match cliente {
        None => {
            return Err(validacion("cliente inexistente"));
        },
        Some(c) => c,
    };
    if !c.activo {
        return Err(validacion("el cliente está inactivo"));
    }
    let nuevo_saldo = c.saldo_actual_centavos + monto_centavos;
    if let Some(limite) = c.limite_credito_centavos {
        if nuevo_saldo > limite {
            usuario.exigir(EXCEDER_LIMITE_CREDITO)?;
        }
    }
    Ok(nuevo_saldo)
}

/// Un renglón de cargo pendiente, con el precio corriente de su producto.
#[derive(Debug, Clone, Copy, PartialEq, Eq)]
pub struct RenglonPendiente {
    pub id: u128,
    /// Cantidad pendiente, en milésimas (siempre positiva).
    pub cantidad_pendiente: i64,
    pub precio_actual_centavos: Option<i64>,
}

/// Lo que un pago o una condonación aplica sobre un renglón.
#[derive(Debug, Clone, Copy, PartialEq, Eq)]
pub struct AplicacionFifo {
    pub renglon_id: u128,
    /// Milésimas saldadas del renglón.
    pub cantidad_aplicada: i64,
    pub valor_aplicado_centavos: i64,
    /// Milésimas que siguen pendientes.
    pub nueva_pendiente: i64,
}

/// Precio corriente del renglón (0 si el producto no tiene precio).
pub open spec fn precio_de(r: RenglonPendiente) -> int {
    match r.precio_actual_centavos {
        Some(p) => p as int,
        None => 0,
    }
}

/// Valor a precio corriente de lo pendiente, redondeado a centavos; 0 si no
/// entra en un entero de 64 bits.
pub open spec fn valor_pendiente(r: RenglonPendiente) -> int {
    let v = redondeo_mitad_lejos(r.cantidad_pendiente * precio_de(r), 1000);
    if entra_en_i64(v) {
        v
    } else {
        0
    }
}

/// `n / d` redondeado, con la mitad exacta hacia el cero (n, d positivos).
pub open spec fn redondeo_mitad_hacia_cero(n: int, d: int) -> int {
    (n + (d - 1) / 2) / d
}

/// Mínimo de dos enteros.
pub open spec fn minimo(a: int, b: int) -> int {
    if a <= b {
        a
    } else {
        b
    }
}

/// Consumo FIFO de `monto` centavos sobre los renglones, del más viejo al más
/// nuevo: se saltean los que no tienen precio o valor; un renglón que el
/// monto alcanza a cubrir se salda entero; el primero que no, se salda en
/// parte (la cantidad que compra el resto del monto, a tres decimales) y ahí
/// termina el monto.
pub open spec fn consumo_fifo(renglones: Seq<RenglonPendiente>, monto: int) -> Seq<AplicacionFifo>
    decreases renglones.len(),
{
    if renglones.len() == 0 || monto <= 0 {
        Seq::empty()
    } else {
        let r = renglones[0];
        let resto = renglones.drop_first();
        let precio = precio_de(r);
        let vp = valor_pendiente(r);
        if precio <= 0 || vp <= 0 {
            consumo_fifo(resto, monto)
        } else if monto >= vp {
            seq![
                AplicacionFifo {
                    renglon_id: r.id,
                    cantidad_aplicada: r.cantidad_pendiente,
                    valor_aplicado_centavos: vp as i64,
                    nueva_pendiente: 0,
                },
            ] + consumo_fifo(resto, monto - vp)
        } else {
            seq![
                AplicacionFifo {
                    renglon_id: r.id,
                    cantidad_aplicada: minimo(redondeo_mitad_lejos(monto * 1000, precio), r.cantidad_pendiente as int) as i64,
                    valor_aplicado_centavos: monto as i64,
                    nueva_pendiente: (r.cantidad_pendiente - minimo(
                        redondeo_mitad_hacia_cero(monto * 1000, precio),
                        r.cantidad_pendiente as int,
                    )) as i64,
                },
            ]
        }
    }
}

/// El valor de cada renglón entra en la precisión de `Decimal`.
pub open spec fn renglones_representables(renglones: Seq<RenglonPendiente>) -> bool {
    forall|i: int| 0 <= i < renglones.len() ==> {
        &&& (#[trigger] renglones[i]).cantidad_pendiente > 0
        &&& -mantisa_maxima() <= renglones[i].cantidad_pendiente * precio_de(renglones[i]) <= mantisa_maxima()
    }
}

/// Consume, a precio corriente, los renglones de cargo pendientes de un
/// cliente por orden de antigüedad (FIFO): el pago (o condonación) más nuevo
/// salda primero la compra fiada más vieja. Lo que sobra tras saldar todo lo
/// pendiente queda como crédito a favor (el saldo puede ir a negativo).
/// `monto_centavos` es el monto que reduce deuda: un pago o el valor absoluto
/// de un ajuste negativo. Las cantidades resultantes quedan a tres decimales,
/// como las guarda la base.
pub fn aplicar_reduccion_fifo(renglones: &Vec<RenglonPendiente>, monto_centavos: i64) -> (r: Vec<AplicacionFifo>)
    requires
        renglones_representables(renglones@),
    ensures
        r@ == consumo_fifo(renglones@, monto_centavos as int),
{
    let mut aplicadas: Vec<AplicacionFifo> = Vec::new();
    let mut monto: i64 = monto_centavos;
    let mut i: usize = 0;
    proof {
        lema_potencias();
        assert(renglones@.skip(0) =~= renglones@);
    }
    loop
        invariant
            i <= renglones@.len(),
            renglones_representables(renglones@),
            aplicadas@ + consumo_fifo(renglones@.skip(i as int), monto as int) == consumo_fifo(
                renglones@,
                monto_centavos as int,
            ),
        ensures
            aplicadas@ == consumo_fifo(renglones@, monto_centavos as int),
        decreases renglones@.len() - i,
    {
        proof {
            lema_potencias();
        }
        if i >= renglones.len() {
            assert(renglones@.skip(i as int) =~= Seq::<RenglonPendiente>::empty());
            assert(aplicadas@ + Seq::<AplicacionFifo>::empty() =~= aplicadas@);
            break;
        }
        let ghost cola = renglones@.skip(i as int);
        proof {
            assert(cola[0] == renglones@[i as int]);
            assert(cola.drop_first() =~= renglones@.skip(i + 1));
        }
        if monto <= 0 {
            assert(consumo_fifo(cola, monto as int) == Seq::<AplicacionFifo>::empty());
            assert(aplicadas@ + Seq::<AplicacionFifo>::empty() =~= aplicadas@);
            break;
        }
        let r = renglones[i];
        let precio: i64 = match r.precio_actual_centavos {
            Some(p) => p,
            None => 0,
        };
        if precio <= 0 {
            assert(consumo_fifo(cola, monto as int) == consumo_fifo(renglones@.skip(i + 1), monto as int));
            i = i + 1;
            continue;
        }
        proof {
            assert(renglones@[i as int].cantidad_pendiente > 0);
        }
        let valor = match redondear_cociente(r.cantidad_pendiente as i128 * precio as i128, 3) {
            Some(v) => v,
            None => 0,
        };
        assert(valor == valor_pendiente(cola[0]));
        if valor <= 0 {
            assert(consumo_fifo(cola, monto as int) == consumo_fifo(renglones@.skip(i + 1), monto as int));
            i = i + 1;
            continue;
        }
        if monto >= valor {
            let a = AplicacionFifo {
                renglon_id: r.id,
                cantidad_aplicada: r.cantidad_pendiente,
                valor_aplicado_centavos: valor,
                nueva_pendiente: 0,
            };
            proof {
                assert(consumo_fifo(cola, monto as int) == seq![a] + consumo_fifo(renglones@.skip(i + 1), monto - valor));
                assert(aplicadas@.push(a) + consumo_fifo(renglones@.skip(i + 1), monto - valor) =~= aplicadas@ + (
                seq![a] + consumo_fifo(renglones@.skip(i + 1), monto - valor)));
            }
            aplicadas.push(a);
            monto = monto - valor;
        } else {
            let n: i128 = monto as i128 * 1000;
            let p: i128 = precio as i128;
            let lejos: i128 = (n + p / 2) / p;
            let cerca: i128 = (n + (p - 1) / 2) / p;
            proof {
                let ni = n as int;
                let pi = p as int;
                let li = lejos as int;
                let ci = cerca as int;
                assert(li == (ni + pi / 2) / pi);
                assert(ci == (ni + (pi - 1) / 2) / pi);
                assert(li <= ni) by (nonlinear_arith) requires pi >= 1, ni >= 0, li == (ni + pi / 2) / pi;
                assert(ci <= li) by (nonlinear_arith)
                    requires pi >= 1, ni >= 0, li == (ni + pi / 2) / pi, ci == (ni + (pi - 1) / 2) / pi;
                assert(ci >= 0) by (nonlinear_arith) requires pi >= 1, ni >= 0, ci == (ni + (pi - 1) / 2) / pi;
            }
            let pend = r.cantidad_pendiente as i128;
            let aplicada: i128 = if lejos <= pend { lejos } else { pend };
            let quitada: i128 = if cerca <= pend { cerca } else { pend };
            let a = AplicacionFifo {
                renglon_id: r.id,
                cantidad_aplicada: aplicada as i64,
                valor_aplicado_centavos: monto,
                nueva_pendiente: (pend - quitada) as i64,
            };
            proof {
                assert(consumo_fifo(cola, monto as int) == seq![a]);
                assert(consumo_fifo(renglones@.skip(i + 1), 0) == Seq::<AplicacionFifo>::empty());
                assert(aplicadas@.push(a) + consumo_fifo(renglones@.skip(i + 1), 0) =~= aplicadas@ + seq![a]);
            }
            aplicadas.push(a);
            monto = 0;
        }
        i = i + 1;
    }
    aplicadas
}

/// Consume por FIFO los renglones pendientes de un cliente con un pago.
pub fn aplicar_pago_fifo(renglones: &Vec<RenglonPendiente>, pago_centavos: i64) -> (r: Vec<AplicacionFifo>)
    requires
        renglones_representables(renglones@),
    ensures
        r@ == consumo_fifo(renglones@, pago_centavos as int),
{
    aplicar_reduccion_fifo(renglones, pago_centavos)
}

/// Consume por FIFO los renglones pendientes de un cliente cuando se le
/// condona parte de la deuda (el valor absoluto de un ajuste negativo).
pub fn aplicar_condonacion_fifo(renglones: &Vec<RenglonPendiente>, condonado_centavos: i64) -> (r: Vec<AplicacionFifo>)
    requires
        renglones_representables(renglones@),
    ensures
        r@ == consumo_fifo(renglones@, condonado_centavos as int),
{
    aplicar_reduccion_fifo(renglones, condonado_centavos)
}

/// Suma de los valores aplicados.
pub open spec fn suma_aplicada(a: Seq<AplicacionFifo>) -> int
    decreases a.len(),
{
    if a.len() == 0 {
        0
    } else {
        a[0].valor_aplicado_centavos + suma_aplicada(a.drop_first())
    }
}

proof fn lema_suma_aplicada_cabeza(x: AplicacionFifo, resto: Seq<AplicacionFifo>)
    ensures
        suma_aplicada(seq![x] + resto) == x.valor_aplicado_centavos + suma_aplicada(resto),
{
    assert((seq![x] + resto).drop_first() =~= resto);
}

/// Un pago nunca aplica más que su propio monto sobre los renglones.
pub proof fn ley_el_pago_no_aplica_mas_que_su_monto(renglones: Seq<RenglonPendiente>, monto: int)
    requires
        monto >= 0,
    ensures
        0 <= suma_aplicada(consumo_fifo(renglones, monto)) <= monto,
    decreases renglones.len(),
{
    if renglones.len() > 0 && monto > 0 {
        let r = renglones[0];
        let resto = renglones.drop_first();
        let vp = valor_pendiente(r);
        if precio_de(r) <= 0 || vp <= 0 {
            ley_el_pago_no_aplica_mas_que_su_monto(resto, monto);
        } else if monto >= vp {
            ley_el_pago_no_aplica_mas_que_su_monto(resto, monto - vp);
            let x = AplicacionFifo {
                renglon_id: r.id,
                cantidad_aplicada: r.cantidad_pendiente,
                valor_aplicado_centavos: vp as i64,
                nueva_pendiente: 0,
            };
            lema_suma_aplicada_cabeza(x, consumo_fifo(resto, monto - vp));
        } else {
            let x = consumo_fifo(renglones, monto)[0];
            assert(consumo_fifo(renglones, monto) =~= seq![x] + Seq::<AplicacionFifo>::empty());
            lema_suma_aplicada_cabeza(x, Seq::empty());
        }
    }
}

/// FIFO: salvo la última, toda aplicación salda por completo su renglón; la
/// compra fiada más vieja se cancela antes de tocar la siguiente.
pub proof fn ley_fifo_salda_primero_lo_mas_viejo(renglones: Seq<RenglonPendiente>, monto: int)
    ensures
        forall|k: int| 0 <= k < consumo_fifo(renglones, monto).len() - 1 ==> (#[trigger] consumo_fifo(
            renglones,
            monto,
        )[k]).nueva_pendiente == 0,
    decreases renglones.len(),
{
    if renglones.len() > 0 && monto > 0 {
        let r = renglones[0];
        let resto = renglones.drop_first();
        let vp = valor_pendiente(r);
        if precio_de(r) <= 0 || vp <= 0 {
            ley_fifo_salda_primero_lo_mas_viejo(resto, monto);
            assert(consumo_fifo(renglones, monto) == consumo_fifo(resto, monto));
        } else if monto >= vp {
            ley_fifo_salda_primero_lo_mas_viejo(resto, monto - vp);
            let c = consumo_fifo(resto, monto - vp);
            assert(consumo_fifo(renglones, monto).len() == c.len() + 1);
            assert(consumo_fifo(renglones, monto)[0].nueva_pendiente == 0);
            assert forall|k: int| 0 <= k < consumo_fifo(renglones, monto).len() - 1 implies (#[trigger] consumo_fifo(
                renglones,
                monto,
            )[k]).nueva_pendiente == 0 by {
                if k > 0 {
                    assert(consumo_fifo(renglones, monto)[k] == c[k - 1]);
                    assert(c[k - 1].nueva_pendiente == 0);
                }
            }
        }
    }
}

/// Pendiente agregada de un producto en la cuenta de un cliente.
#[derive(Debug, Clone, Copy, PartialEq, Eq)]
pub struct PendienteCliente {
    pub cliente_id: u128,
    /// Milésimas pendientes del producto, sumadas por cliente.
    pub cantidad_pendiente: i64,
}

/// Ajuste automático que el cambio de precio asienta en una cuenta.
#[derive(Debug, Clone, Copy, PartialEq, Eq)]
pub struct AjusteReprecio {
    pub cliente_id: u128,
    pub delta_centavos: i64,
}

/// Diferencia, redondeada a centavos, que el cambio de precio produce en la
/// deuda pendiente de un cliente (0 si no entra en un entero de 64 bits).
pub open spec fn delta_reprecio(cantidad_pendiente: int, anterior: int, nuevo: int) -> int {
    let d = redondeo_mitad_lejos(cantidad_pendiente * (nuevo - anterior), 1000);
    if entra_en_i64(d) {
        d
    } else {
        0
    }
}

/// Ajustes por reprecio: uno por cliente con diferencia distinta de cero.
pub open spec fn ajustes_reprecio(pendientes: Seq<PendienteCliente>, anterior: int, nuevo: int) -> Seq<AjusteReprecio>
    decreases pendientes.len(),
{
    if pendientes.len() == 0 || anterior == nuevo {
        Seq::empty()
    } else {
        let previos = ajustes_reprecio(pendientes.drop_last(), anterior, nuevo);
        let p = pendientes.last();
        let d = delta_reprecio(p.cantidad_pendiente as int, anterior, nuevo);
        if d == 0 {
            previos
        } else {
            previos.push(AjusteReprecio { cliente_id: p.cliente_id, delta_centavos: d as i64 })
        }
    }
}

/// Las diferencias de precio aplicadas a lo pendiente entran en `Decimal`.
pub open spec fn reprecio_representable(pendientes: Seq<PendienteCliente>, anterior: int, nuevo: int) -> bool {
    forall|i: int| 0 <= i < pendientes.len() ==> -mantisa_maxima() <= (#[trigger] pendientes[i]).cantidad_pendiente
        * (nuevo - anterior) <= mantisa_maxima()
}

/// Revalúa a precio corriente lo pendiente de un producto cuando su precio
/// cambia, para arriba o para abajo: la diferencia, redondeada a centavos,
/// es un ajuste automático en la cuenta de cada cliente afectado. Sin precio
/// anterior se toma 0; si el precio no cambió no hay ajustes.
pub fn reindexar_precio_producto(
    pendientes: &Vec<PendienteCliente>,
    precio_anterior_centavos: Option<i64>,
    precio_nuevo_centavos: i64,
) -> (r: Vec<AjusteReprecio>)
    requires
        entra_en_i64(precio_nuevo_centavos - match precio_anterior_centavos {
            Some(a) => a as int,
            None => 0,
        }),
        reprecio_representable(
            pendientes@,
            match precio_anterior_centavos {
                Some(a) => a as int,
                None => 0,
            },
            precio_nuevo_centavos as int,
        ),
    ensures
        r@ == ajustes_reprecio(
            pendientes@,
            match precio_anterior_centavos {
                Some(a) => a as int,
                None => 0,
            },
            precio_nuevo_centavos as int,
        ),
{
    let anterior: i64 = match precio_anterior_centavos {
        Some(a) => a,
        None => 0,
    };
    let mut r: Vec<AjusteReprecio> = Vec::new();
    if anterior == precio_nuevo_centavos {
        return r;
    }
    let delta_unitario: i64 = precio_nuevo_centavos - anterior;
    let mut i: usize = 0;
    assert(pendientes@.take(0) =~= Seq::<PendienteCliente>::empty());
    while i < pendientes.len()
        invariant
            i <= pendientes@.len(),
            anterior != precio_nuevo_centavos,
            delta_unitario == precio_nuevo_centavos - anterior,
            reprecio_representable(pendientes@, anterior as int, precio_nuevo_centavos as int),
            r@ == ajustes_reprecio(pendientes@.take(i as int), anterior as int, precio_nuevo_centavos as int),
        decreases pendientes@.len() - i,
    {
        proof {
            lema_potencias();
            assert(pendientes@.take(i + 1).drop_last() =~= pendientes@.take(i as int));
            assert(pendientes@.take(i + 1).last() == pendientes@[i as int]);
        }
        let p = pendientes[i];
        let delta = match redondear_cociente(p.cantidad_pendiente as i128 * delta_unitario as i128, 3) {
            Some(d) => d,
            None => 0,
        };
        if delta != 0 {
            r.push(AjusteReprecio { cliente_id: p.cliente_id, delta_centavos: delta });
        }
        i = i + 1;
    }
    assert(pendientes@.take(pendientes@.len() as int) =~= pendientes@);
    r
}

/// Diferencia de deuda que el cambio de precio produce en lo pendiente de un
/// cliente: cantidad pendiente (en milésimas) por la diferencia de precio,
/// redondeada a centavos con la mitad lejos del cero.
pub open spec fn diferencia_de_deuda(p: PendienteCliente, anterior: int, nuevo: int) -> int {
    redondeo_mitad_lejos(p.cantidad_pendiente * (nuevo - anterior), 1000)
}

/// Los pendientes que el cambio de precio revalúa: los de diferencia no nula
/// (que entra en 64 bits).
pub open spec fn revaluados(pendientes: Seq<PendienteCliente>, anterior: int, nuevo: int) -> Seq<PendienteCliente> {
    pendientes.filter(
        |p: PendienteCliente|
            entra_en_i64(diferencia_de_deuda(p, anterior, nuevo)) && diferencia_de_deuda(p, anterior, nuevo) != 0,
    )
}

/// Al cambiar el precio de un producto se revalúa lo pendiente de cada
/// cliente: un ajuste por cada pendiente cuya diferencia no es cero, en el
/// orden de los pendientes, con su cliente y esa diferencia; ningún otro.
pub proof fn ley_reprecio_revalua_a_cada_cliente(pendientes: Seq<PendienteCliente>, anterior: int, nuevo: int)
    ensures
        ajustes_reprecio(pendientes, anterior, nuevo).len() == revaluados(pendientes, anterior, nuevo).len(),
        forall|j: int|
            0 <= j < revaluados(pendientes, anterior, nuevo).len() ==> #[trigger] ajustes_reprecio(
                pendientes,
                anterior,
                nuevo,
            )[j] == (AjusteReprecio {
                cliente_id: revaluados(pendientes, anterior, nuevo)[j].cliente_id,
                delta_centavos: diferencia_de_deuda(revaluados(pendientes, anterior, nuevo)[j], anterior, nuevo) as i64,
            }),
    decreases pendientes.len(),
{
    reveal(Seq::filter);
    if pendientes.len() > 0 {
        let pre = pendientes.drop_last();
        ley_reprecio_revalua_a_cada_cliente(pre, anterior, nuevo);
        let x = pendientes.last();
        if anterior == nuevo {
            assert(diferencia_de_deuda(x, anterior, nuevo) == 0);
            assert(revaluados(pendientes, anterior, nuevo) == revaluados(pre, anterior, nuevo));
        } else {
            let d = diferencia_de_deuda(x, anterior, nuevo);
            assert(delta_reprecio(x.cantidad_pendiente as int, anterior, nuevo) == if entra_en_i64(d) {
                d
            } else {
                0
            });
        }
    }
}

/// Reprecio de ida y vuelta: subir un precio y volver a bajarlo deja la
/// deuda pendiente de cada cliente exactamente como estaba (el redondeo a la
/// mitad lejos del cero es simétrico).
pub proof fn ley_reprecio_ida_y_vuelta_se_compensa(cantidad_pendiente: int, a: int, b: int)
    requires
        entra_en_i64(redondeo_mitad_lejos(cantidad_pendiente * (b - a), 1000)),
        entra_en_i64(redondeo_mitad_lejos(cantidad_pendiente * (a - b), 1000)),
    ensures
        delta_reprecio(cantidad_pendiente, a, b) + delta_reprecio(cantidad_pendiente, b, a) == 0,
{
    assert(cantidad_pendiente * (a - b) == -(cantidad_pendiente * (b - a))) by (nonlinear_arith);
}

/// Un pago sobre la cuenta: exige `gestionar_clientes`; positivo y con un
/// medio distinto de la propia cuenta corriente.
pub fn validar_pago(usuario: &UsuarioActual, monto_centavos: i64, medio: MedioPago) -> (r: Result<(), ErrorApi>)
    ensures
        !tiene_permiso(*usuario, "gestionar_clientes"@) ==> (r matches Err(e) && es_prohibido(e, "gestionar_clientes"@)),
        tiene_permiso(*usuario, "gestionar_clientes"@) ==> {
            &&& monto_centavos <= 0 ==> (r matches Err(e) && es_validacion(e, "el monto del pago debe ser positivo"@))
            &&& monto_centavos > 0 && medio == MedioPago::CuentaCorriente ==> (r matches Err(e) && es_validacion(
                e,
                "la cuenta corriente no se paga con cuenta corriente"@,
            ))
            &&& monto_centavos > 0 && medio != MedioPago::CuentaCorriente ==> r is Ok
        },
{
    if let Err(e) = usuario.exigir(GESTIONAR_CLIENTES) {
        return Err(e);
    }
    if monto_centavos <= 0 {
        return Err(validacion("el monto del pago debe ser positivo"));
    }
    if medio == MedioPago::CuentaCorriente {
        return Err(validacion("la cuenta corriente no se paga con cuenta corriente"));
    }
    Ok(())
}

/// Ajuste manual de cuenta (condonación o corrección): exige
/// `gestionar_clientes`, un monto distinto de cero (con signo: positivo
/// aumenta la deuda) y un motivo, que se guarda recortado.
pub fn validar_ajuste_cuenta(usuario: &UsuarioActual, monto_centavos: i64, motivo: &str) -> (r: Result<String, ErrorApi>)
    ensures
        !tiene_permiso(*usuario, "gestionar_clientes"@) ==> (r matches Err(e) && es_prohibido(e, "gestionar_clientes"@)),
        tiene_permiso(*usuario, "gestionar_clientes"@) ==> {
            &&& monto_centavos == 0 ==> (r matches Err(e) && es_validacion(e, "el monto no puede ser cero"@))
            &&& monto_centavos != 0 && recortado(motivo@).len() == 0 ==> (r matches Err(e) && es_validacion(
                e,
                "el motivo es obligatorio"@,
            ))
            &&& monto_centavos != 0 && recortado(motivo@).len() > 0 ==> (r matches Ok(m) && m@ == recortado(motivo@))
        },
{
    if let Err(e) = usuario.exigir(GESTIONAR_CLIENTES) {
        return Err(e);
    }
    if monto_centavos == 0 {
        return Err(validacion("el monto no puede ser cero"));
    }
    obligatorio(motivo, "el motivo es obligatorio")
}

/// Un ajuste negativo condona deuda: consume renglones pendientes por FIFO
/// como un pago, por el monto condonado. Un ajuste positivo no consume nada.
pub fn monto_condonado(monto_ajuste_centavos: i64) -> (r: Option<i64>)
    requires
        monto_ajuste_centavos > i64::MIN,
    ensures
        monto_ajuste_centavos < 0 ==> (r matches Some(c) && c == -monto_ajuste_centavos),
        monto_ajuste_centavos >= 0 ==> r is None,
{
    if monto_ajuste_centavos < 0 {
        Some(-monto_ajuste_centavos)
    } else {
        None
    }
}

/// Alta de cliente: exige `gestionar_clientes`, nombre obligatorio
/// (recortado) y límite de crédito, si viene, no negativo.
pub fn validar_alta_cliente(usuario: &UsuarioActual, nombre: &str, limite_credito_centavos: Option<i64>) -> (r: Result<
    String,
    ErrorApi,
>)
    ensures
        !tiene_permiso(*usuario, "gestionar_clientes"@) ==> (r matches Err(e) && es_prohibido(e, "gestionar_clientes"@)),
        tiene_permiso(*usuario, "gestionar_clientes"@) ==> {
            &&& recortado(nombre@).len() == 0 ==> (r matches Err(e) && es_validacion(e, "el nombre es obligatorio"@))
            &&& recortado(nombre@).len() > 0 && (limite_credito_centavos matches Some(l) && l < 0) ==> (r matches Err(e)
                && es_validacion(e, "el límite no puede ser negativo"@))
            &&& recortado(nombre@).len() > 0 && !(limite_credito_centavos matches Some(l) && l < 0) ==> (r matches Ok(
                n,
            ) && n@ == recortado(nombre@))
        },
{
    if let Err(e) = usuario.exigir(GESTIONAR_CLIENTES) {
        return Err(e);
    }
    let n = match obligatorio(nombre, "el nombre es obligatorio") {
        Ok(n) => n,
        Err(e) => return Err(e),
    };
    if let Some(l) = limite_credito_centavos {
        if l < 0 {
            return Err(validacion("el límite no puede ser negativo"));
        }
    }
    Ok(n)
}

/// Cambios a un cliente: exige `gestionar_clientes`; un límite nuevo (no
/// uno que se quita) no puede ser negativo.
pub fn validar_cambios_cliente(usuario: &UsuarioActual, limite_credito_centavos: Option<Option<i64>>) -> (r: Result<
    (),
    ErrorApi,
>)
    ensures
        !tiene_permiso(*usuario, "gestionar_clientes"@) ==> (r matches Err(e) && es_prohibido(e, "gestionar_clientes"@)),
        tiene_permiso(*usuario, "gestionar_clientes"@) ==> {
            &&& (limite_credito_centavos matches Some(Some(l)) && l < 0) ==> (r matches Err(e) && es_validacion(
                e,
                "el límite no puede ser negativo"@,
            ))
            &&& !(limite_credito_centavos matches Some(Some(l)) && l < 0) ==> r is Ok
        },
{
    if let Err(e) = usuario.exigir(GESTIONAR_CLIENTES) {
        return Err(e);
    }
    if let Some(Some(l)) = limite_credito_centavos {
        if l < 0 {
            return Err(validacion("el límite no puede ser negativo"));
        }
    }
    Ok(())
}

/// Un renglón de producto de un cargo, tal como se lista en la cuenta.
#[derive(Debug, Clone)]
pub struct RenglonCuenta {
    pub movimiento_id: u128,
    pub producto_id: u128,
    pub producto_nombre: String,
    pub cantidad: i64,
    pub cantidad_pendiente: i64,
}

/// Los renglones que pertenecen a un movimiento, en su orden.
pub open spec fn renglones_de(renglones: Seq<RenglonCuenta>, movimiento_id: u128) -> Seq<RenglonCuenta>
    decreases renglones.len(),
{
    if renglones.len() == 0 {
        Seq::empty()
    } else {
        let previos = renglones_de(renglones.drop_last(), movimiento_id);
        if renglones.last().movimiento_id == movimiento_id {
            previos.push(renglones.last())
        } else {
            previos
        }
    }
}

fn filtrar_renglones(renglones: &Vec<RenglonCuenta>, movimiento_id: u128) -> (r: Vec<RenglonCuenta>)
    ensures
        r@ == renglones_de(renglones@, movimiento_id),
{
    let mut r: Vec<RenglonCuenta> = Vec::new();
    let mut i: usize = 0;
    while i < renglones.len()
        invariant
            0 <= i <= renglones@.len(),
            r@ == renglones_de(renglones@.take(i as int), movimiento_id),
        decreases renglones@.len() - i,
    {
        assert(renglones@.take(i + 1).drop_last() =~= renglones@.take(i as int));
        if renglones[i].movimiento_id == movimiento_id {
            let x = &renglones[i];
            r.push(
                RenglonCuenta {
                    movimiento_id: x.movimiento_id,
                    producto_id: x.producto_id,
                    producto_nombre: x.producto_nombre.clone(),
                    cantidad: x.cantidad,
                    cantidad_pendiente: x.cantidad_pendiente,
                },
            );
        }
        i = i + 1;
    }
    assert(renglones@.take(renglones@.len() as int) =~= renglones@);
    r
}

/// El ledger de la cuenta con los renglones de cada cargo: a cada
/// movimiento listado le corresponden sus renglones, en el orden leído.
pub fn agrupar_renglones(movimientos: &Vec<u128>, renglones: &Vec<RenglonCuenta>) -> (r: Vec<Vec<RenglonCuenta>>)
    ensures
        r@.len() == movimientos@.len(),
        forall|i: int| 0 <= i < movimientos@.len() ==> (#[trigger] r@[i])@ == renglones_de(renglones@, movimientos@[i]),
{
    let mut r: Vec<Vec<RenglonCuenta>> = Vec::new();
    let mut i: usize = 0;
    while i < movimientos.len()
        invariant
            0 <= i <= movimientos@.len(),
            r@.len() == i,
            forall|k: int| 0 <= k < i ==> (#[trigger] r@[k])@ == renglones_de(renglones@, movimientos@[k]),
        decreases movimientos@.len() - i,
    {
        r.push(filtrar_renglones(renglones, movimientos[i]));
        i = i + 1;
    }
    r
}

/// Saldo que deja un pago: el pago se asienta con monto negativo.
pub fn saldo_tras_pago(saldo_centavos: i64, monto_centavos: i64) -> (r: i64)
    requires
        entra_en_i64(saldo_centavos - monto_centavos),
    ensures
        r == saldo_centavos - monto_centavos,
{
    saldo_centavos - monto_centavos
}

/// Monto del contra-asiento de un cargo: el mismo con signo invertido.
pub open spec fn contra_asiento(monto_cargo: int) -> int {
    -monto_cargo
}

/// Contra-asiento del cargo de una venta anulada: el mismo monto con signo
/// invertido.
pub fn monto_contra_asiento(monto_cargo_centavos: i64) -> (r: i64)
    requires
        monto_cargo_centavos > i64::MIN,
    ensures
        r == contra_asiento(monto_cargo_centavos as int),
{
    -monto_cargo_centavos
}

/// Anular el fiado de una venta deja el saldo del cliente como estaba antes
/// del cargo: el cargo (que suma su monto al saldo) y su contra-asiento suman
/// cero en el ledger.
pub proof fn ley_anular_fiado_restituye_saldo(saldo: int, monto: int)
    ensures
        (saldo + monto) + contra_asiento(monto) == saldo,
{
}

} // verus!
