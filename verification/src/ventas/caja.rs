//! Sesiones de caja (apertura idempotente y cierre con arqueo) y anulación
//! de ventas.

use vstd::prelude::*;
use crate::aritmetica::entra_en_i64;
use crate::error::{es_conflicto, es_prohibido, es_validacion, conflicto, validacion, ErrorApi};
use crate::identidad::permisos::{tiene_permiso, UsuarioActual, ABRIR_CAJA, ANULAR_VENTA, CERRAR_CAJA};
use crate::ventas::EstadoVenta;

verus! {

/// Qué hacer con un pedido de apertura de sesión.
#[derive(Debug, Clone, Copy, PartialEq, Eq, Structural)]
pub enum AperturaSesion {
    /// La sesión con ese UUID ya existe: reintento del dispositivo.
    YaExistia,
    /// Abrir la sesión nueva.
    Abrir,
}

/// Apertura de una sesión de caja: exige `abrir_caja` y un monto inicial no
/// negativo. Idempotente por el UUID del dispositivo; un usuario no puede
/// tener dos sesiones abiertas.
pub fn abrir_sesion(
    usuario: &UsuarioActual,
    monto_inicial_centavos: i64,
    ya_existe: bool,
    tiene_otra_abierta: bool,
) -> (r: Result<AperturaSesion, ErrorApi>)
    ensures
        !tiene_permiso(*usuario, "abrir_caja"@) ==> (r matches Err(e) && es_prohibido(e, "abrir_caja"@)),
        tiene_permiso(*usuario, "abrir_caja"@) ==> {
            &&& monto_inicial_centavos < 0 ==> (r matches Err(e) && es_validacion(
                e,
                "el monto inicial no puede ser negativo"@,
            ))
            &&& monto_inicial_centavos >= 0 && ya_existe ==> r == Ok::<AperturaSesion, ErrorApi>(AperturaSesion::YaExistia)
            &&& monto_inicial_centavos >= 0 && !ya_existe && tiene_otra_abierta ==> (r matches Err(e)
                && es_conflicto(e, "ya tenés una sesión de caja abierta; cerrala antes de abrir otra"@))
            &&& monto_inicial_centavos >= 0 && !ya_existe && !tiene_otra_abierta ==> r == Ok::<AperturaSesion, ErrorApi>(
                AperturaSesion::Abrir,
            )
        },
{
    if let Err(e) = usuario.exigir(ABRIR_CAJA) {
        return Err(e);
    }
    if monto_inicial_centavos < 0 {
        return Err(validacion("el monto inicial no puede ser negativo"));
    }
    if ya_existe {
        return Ok(AperturaSesion::YaExistia);
    }
    if tiene_otra_abierta {
        return Err(conflicto("ya tenés una sesión de caja abierta; cerrala antes de abrir otra"));
    }
    Ok(AperturaSesion::Abrir)
}

/// Una sesión de caja tal como está guardada.
#[derive(Debug, Clone, Copy, PartialEq, Eq, Structural)]
pub struct SesionCaja {
    pub monto_inicial_centavos: i64,
    pub cerrada: bool,
    pub monto_contado_centavos: Option<i64>,
    pub diferencia_arqueo_centavos: Option<i64>,
}

/// Respuesta de un pedido de cierre.
#[derive(Debug, Clone, Copy, PartialEq, Eq, Structural)]
pub enum CierreSesion {
    /// Ya estaba cerrada: se devuelve el arqueo registrado.
    YaEstabaCerrada { monto_contado_centavos: Option<i64>, diferencia_arqueo_centavos: Option<i64> },
    /// Se cerró con este arqueo.
    Cerrada { efectivo_esperado_centavos: i64, monto_contado_centavos: i64, diferencia_arqueo_centavos: i64 },
}

/// Efectivo esperado: monto inicial + pagos en efectivo de ventas confirmadas.
pub open spec fn efectivo_esperado(s: SesionCaja, efectivo_ventas: int) -> int {
    s.monto_inicial_centavos + efectivo_ventas
}

/// El arqueo de una sesión abierta se puede calcular en 64 bits.
pub open spec fn arqueo_calculable(s: SesionCaja, monto_contado: int, efectivo_ventas: int) -> bool {
    s.cerrada || (entra_en_i64(efectivo_esperado(s, efectivo_ventas)) && entra_en_i64(
        monto_contado - efectivo_esperado(s, efectivo_ventas),
    ))
}

/// Cierre de una sesión válida (existe, contado no negativo): la sesión como
/// queda y la respuesta. La diferencia queda registrada tal cual: nunca se
/// corrige.
pub open spec fn cierre(s: SesionCaja, monto_contado: i64, efectivo_ventas: int) -> (SesionCaja, CierreSesion) {
    if s.cerrada {
        (
            s,
            CierreSesion::YaEstabaCerrada {
                monto_contado_centavos: s.monto_contado_centavos,
                diferencia_arqueo_centavos: s.diferencia_arqueo_centavos,
            },
        )
    } else {
        let esperado = efectivo_esperado(s, efectivo_ventas);
        let diferencia = monto_contado - esperado;
        (
            SesionCaja {
                monto_inicial_centavos: s.monto_inicial_centavos,
                cerrada: true,
                monto_contado_centavos: Some(monto_contado),
                diferencia_arqueo_centavos: Some(diferencia as i64),
            },
            CierreSesion::Cerrada {
                efectivo_esperado_centavos: esperado as i64,
                monto_contado_centavos: monto_contado,
                diferencia_arqueo_centavos: diferencia as i64,
            },
        )
    }
}

/// Verifica en ejecución `arqueo_calculable`.
pub fn arqueo_es_calculable(s: &SesionCaja, monto_contado: i64, efectivo_ventas: i64) -> (r: bool)
    ensures
        r == arqueo_calculable(*s, monto_contado as int, efectivo_ventas as int),
{
    if s.cerrada {
        return true;
    }
    match s.monto_inicial_centavos.checked_add(efectivo_ventas) {
        Some(esperado) => monto_contado.checked_sub(esperado).is_some(),
        None => false,
    }
}

/// Cierra la sesión registrando el arqueo: exige `cerrar_caja` y un monto
/// contado no negativo. Idempotente: si ya estaba cerrada devuelve el
/// arqueo registrado sin tocar nada.
pub fn cerrar_sesion(
    usuario: &UsuarioActual,
    monto_contado_centavos: i64,
    sesion: &mut Option<SesionCaja>,
    efectivo_ventas_centavos: i64,
) -> (r: Result<CierreSesion, ErrorApi>)
    requires
        *old(sesion) matches Some(s) ==> arqueo_calculable(s, monto_contado_centavos as int, efectivo_ventas_centavos as int),
    ensures
        r is Err ==> *final(sesion) == *old(sesion),
        !tiene_permiso(*usuario, "cerrar_caja"@) ==> (r matches Err(e) && es_prohibido(e, "cerrar_caja"@)),
        tiene_permiso(*usuario, "cerrar_caja"@) ==> {
            &&& monto_contado_centavos < 0 ==> (r matches Err(e) && es_validacion(
                e,
                "el monto contado no puede ser negativo"@,
            ))
            &&& monto_contado_centavos >= 0 && *old(sesion) is None ==> r == Err::<CierreSesion, ErrorApi>(
                ErrorApi::NoEncontrado,
            )
            &&& monto_contado_centavos >= 0 && *old(sesion) is Some ==> {
                let (s, respuesta) = cierre((*old(sesion)).unwrap(), monto_contado_centavos, efectivo_ventas_centavos as int);
                &&& *final(sesion) == Some(s)
                &&& r == Ok::<CierreSesion, ErrorApi>(respuesta)
            }
        },
{
    if let Err(e) = usuario.exigir(CERRAR_CAJA) {
        return Err(e);
    }
    if monto_contado_centavos < 0 {
        return Err(validacion("el monto contado no puede ser negativo"));
    }
    let s = match *sesion {
        Some(s) => s,
        None => return Err(ErrorApi::NoEncontrado),
    };
    if s.cerrada {
        return Ok(
            CierreSesion::YaEstabaCerrada {
                monto_contado_centavos: s.monto_contado_centavos,
                diferencia_arqueo_centavos: s.diferencia_arqueo_centavos,
            },
        );
    }
    let esperado = s.monto_inicial_centavos + efectivo_ventas_centavos;
    let diferencia = monto_contado_centavos - esperado;
    *sesion = Some(
        SesionCaja {
            monto_inicial_centavos: s.monto_inicial_centavos,
            cerrada: true,
            monto_contado_centavos: Some(monto_contado_centavos),
            diferencia_arqueo_centavos: Some(diferencia),
        },
    );
    Ok(
        CierreSesion::Cerrada {
            efectivo_esperado_centavos: esperado,
            monto_contado_centavos,
            diferencia_arqueo_centavos: diferencia,
        },
    )
}

/// Cerrar dos veces: el segundo cierre no cambia la sesión y devuelve el
/// arqueo del primero, sea cual sea el nuevo monto contado.
pub proof fn ley_cierre_idempotente(
    s: SesionCaja,
    contado: i64,
    efectivo: int,
    otro_contado: i64,
    otro_efectivo: int,
)
    requires
        arqueo_calculable(s, contado as int, efectivo),
    ensures
        ({
            let (s1, r1) = cierre(s, contado, efectivo);
            let (s2, r2) = cierre(s1, otro_contado, otro_efectivo);
            &&& s2 == s1
            &&& !s.cerrada ==> (r1 matches CierreSesion::Cerrada { monto_contado_centavos, diferencia_arqueo_centavos, .. }
                && r2 == (CierreSesion::YaEstabaCerrada {
                monto_contado_centavos: Some(monto_contado_centavos),
                diferencia_arqueo_centavos: Some(diferencia_arqueo_centavos),
            }))
        }),
{
}

/// El arqueo: la diferencia registrada es lo contado menos lo esperado, y
/// lo esperado es el monto inicial más el efectivo de las ventas.
pub proof fn ley_arqueo(s: SesionCaja, contado: i64, efectivo: int)
    requires
        !s.cerrada,
        arqueo_calculable(s, contado as int, efectivo),
    ensures
        cierre(s, contado, efectivo).1 matches CierreSesion::Cerrada {
            efectivo_esperado_centavos,
            monto_contado_centavos,
            diferencia_arqueo_centavos,
        } && efectivo_esperado_centavos == s.monto_inicial_centavos + efectivo && monto_contado_centavos == contado
            && diferencia_arqueo_centavos == contado - (s.monto_inicial_centavos + efectivo),
{
}

/// Qué hacer con un pedido de anulación.
#[derive(Debug, Clone, Copy, PartialEq, Eq, Structural)]
pub enum Anulacion {
    /// Ya estaba anulada: no-op.
    YaEstabaAnulada,
    /// Anular: contra-asientos de stock y del fiado, y estado `anulada`.
    Anular,
}

/// Anulación de una venta: exige `anular_venta`; la venta debe existir;
/// anular una venta ya anulada es un no-op. Jamás se edita una venta.
pub fn decidir_anulacion(usuario: &UsuarioActual, estado: Option<EstadoVenta>) -> (r: Result<Anulacion, ErrorApi>)
    ensures
        !tiene_permiso(*usuario, "anular_venta"@) ==> (r matches Err(e) && es_prohibido(e, "anular_venta"@)),
        tiene_permiso(*usuario, "anular_venta"@) ==> {
            &&& estado is None ==> r == Err::<Anulacion, ErrorApi>(ErrorApi::NoEncontrado)
            &&& estado == Some(EstadoVenta::Anulada) ==> r == Ok::<Anulacion, ErrorApi>(Anulacion::YaEstabaAnulada)
            &&& estado == Some(EstadoVenta::Confirmada) ==> r == Ok::<Anulacion, ErrorApi>(Anulacion::Anular)
        },
{
    if let Err(e) = usuario.exigir(ANULAR_VENTA) {
        return Err(e);
    }
    match estado {
        None => Err(ErrorApi::NoEncontrado),
        Some(EstadoVenta::Anulada) => Ok(Anulacion::YaEstabaAnulada),
        Some(EstadoVenta::Confirmada) => Ok(Anulacion::Anular),
    }
}

} // verus!
