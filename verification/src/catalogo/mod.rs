//! Contexto CATÁLOGO: categorías con markup e IVA por defecto, productos con
//! sus overrides, códigos de barras y la configuración del redondeo.
//! La herencia de markup/IVA es SOLO desde la categoría directa del producto.

use vstd::prelude::*;
use crate::error::{es_conflicto, es_prohibido, es_validacion, texto, validacion, conflicto, ErrorApi};
use crate::identidad::permisos::{tiene_permiso, UsuarioActual, GESTIONAR_CATALOGO, MODIFICAR_PRECIOS};
use crate::compras::precio::porcentaje_valido;
use crate::texto::{agregar_texto, mismo_texto, obligatorio, recortado, recortar};

verus! {

/// Unidad de venta de un producto.
#[derive(Debug, Clone, Copy, PartialEq, Eq, Structural)]
pub enum UnidadDeVenta {
    Unidad,
    Peso,
}

/// Datos del producto que necesita Compras para cargar un ítem de recepción,
/// con markup e IVA ya resueltos (porcentajes en centésimos).
#[derive(Debug, Clone)]
pub struct ProductoParaCompra {
    pub id: u128,
    pub nombre: String,
    pub markup_pct: i64,
    pub iva_pct: i64,
    pub controla_vencimiento: bool,
}

/// Markup por defecto de una categoría: 40,00 %.
pub const MARKUP_POR_DEFECTO: i64 = 4000;
/// IVA por defecto de una categoría: 21,00 %.
pub const IVA_POR_DEFECTO: i64 = 2100;
/// Mayor porcentaje admitido: 999,00 %.
pub const PORCENTAJE_MAXIMO: i64 = 99900;

/// Cascada de resolución: el override del producto, si lo tiene; si no, el
/// valor de su categoría directa.
pub fn resolver_porcentaje(override_producto: Option<i64>, de_categoria: i64) -> (r: i64)
    ensures
        r == match override_producto {
            Some(v) => v,
            None => de_categoria,
        },
{
    match override_producto {
        Some(v) => v,
        None => de_categoria,
    }
}

/// Arma el producto para compra resolviendo la cascada de markup e IVA.
pub fn producto_para_compra(
    id: u128,
    nombre: String,
    markup_override: Option<i64>,
    iva_override: Option<i64>,
    markup_categoria: i64,
    iva_categoria: i64,
    controla_vencimiento: bool,
) -> (r: ProductoParaCompra)
    ensures
        r.id == id,
        r.nombre == nombre,
        r.markup_pct == resolver_porcentaje_spec(markup_override, markup_categoria),
        r.iva_pct == resolver_porcentaje_spec(iva_override, iva_categoria),
        r.controla_vencimiento == controla_vencimiento,
{
    ProductoParaCompra {
        id,
        nombre,
        markup_pct: resolver_porcentaje(markup_override, markup_categoria),
        iva_pct: resolver_porcentaje(iva_override, iva_categoria),
        controla_vencimiento,
    }
}

/// Valor resuelto por la cascada.
pub open spec fn resolver_porcentaje_spec(override_producto: Option<i64>, de_categoria: i64) -> i64 {
    match override_producto {
        Some(v) => v,
        None => de_categoria,
    }
}

/// Un porcentaje de catálogo debe estar entre 0 y 999.
pub fn validar_pct(nombre: &str, valor: i64) -> (r: Result<(), ErrorApi>)
    ensures
        r is Ok <==> 0 <= valor <= 99900,
        r matches Err(e) ==> es_validacion(e, nombre@ + " fuera de rango"@),
{
    if valor < 0 || valor > PORCENTAJE_MAXIMO {
        let mut m = String::from_str(nombre);
        agregar_texto(&mut m, " fuera de rango");
        return Err(ErrorApi::Validacion(m));
    }
    Ok(())
}

/// Alta de categoría: nombre obligatorio y porcentajes (con sus defaults,
/// 40 % de markup y 21 % de IVA) entre 0 y 999. Devuelve el nombre recortado
/// y los porcentajes resueltos.
pub fn validar_alta_categoria(
    usuario: &UsuarioActual,
    nombre: &str,
    markup_pct: Option<i64>,
    iva_pct: Option<i64>,
) -> (r: Result<(String, i64, i64), ErrorApi>)
    ensures
        !tiene_permiso(*usuario, "gestionar_catalogo"@) ==> (r matches Err(e) && es_prohibido(e, "gestionar_catalogo"@)),
        tiene_permiso(*usuario, "gestionar_catalogo"@) && recortado(nombre@).len() == 0 ==> (r matches Err(e) && es_validacion(e, "el nombre es obligatorio"@)),
        tiene_permiso(*usuario, "gestionar_catalogo"@) && recortado(nombre@).len() > 0 ==> {
            let markup = resolver_porcentaje_spec(markup_pct, 4000);
            let iva = resolver_porcentaje_spec(iva_pct, 2100);
            &&& !(0 <= markup <= 99900) ==> (r matches Err(e) && es_validacion(e, "markup_pct fuera de rango"@))
            &&& 0 <= markup <= 99900 && !(0 <= iva <= 99900) ==> (r matches Err(e) && es_validacion(
                e,
                "iva_pct fuera de rango"@,
            ))
            &&& 0 <= markup <= 99900 && 0 <= iva <= 99900 ==> (r matches Ok(t) && t.0@ == recortado(nombre@)
                && t.1 == markup && t.2 == iva)
        },
{
    if let Err(e) = usuario.exigir(GESTIONAR_CATALOGO) {
        return Err(e);
    }
    let n = match obligatorio(nombre, "el nombre es obligatorio") {
        Ok(n) => n,
        Err(e) => return Err(e),
    };
    let markup = resolver_porcentaje(markup_pct, MARKUP_POR_DEFECTO);
    let iva = resolver_porcentaje(iva_pct, IVA_POR_DEFECTO);
    proof {
        reveal_strlit("markup_pct");
        reveal_strlit("iva_pct");
        reveal_strlit(" fuera de rango");
        reveal_strlit("markup_pct fuera de rango");
        reveal_strlit("iva_pct fuera de rango");
        assert("markup_pct"@ + " fuera de rango"@ =~= "markup_pct fuera de rango"@);
        assert("iva_pct"@ + " fuera de rango"@ =~= "iva_pct fuera de rango"@);
    }
    if let Err(e) = validar_pct("markup_pct", markup) {
        return Err(e);
    }
    if let Err(e) = validar_pct("iva_pct", iva) {
        return Err(e);
    }
    Ok((n, markup, iva))
}

/// Redondeo configurable del precio calculado en recepciones: entre 0 (sin
/// redondeo) y $10.000.
pub fn validar_redondeo_configurado(usuario: &UsuarioActual, redondeo_centavos: i64) -> (r: Result<(), ErrorApi>)
    ensures
        !tiene_permiso(*usuario, "modificar_precios"@) ==> (r matches Err(e) && es_prohibido(e, "modificar_precios"@)),
        tiene_permiso(*usuario, "modificar_precios"@) ==> (r is Ok <==> 0 <= redondeo_centavos <= 1000000),
        tiene_permiso(*usuario, "modificar_precios"@) && r is Err ==> (r matches Err(e) && es_validacion(
            e,
            "el redondeo debe estar entre 0 (sin redondeo) y $10.000"@,
        )),
{
    if let Err(e) = usuario.exigir(MODIFICAR_PRECIOS) {
        return Err(e);
    }
    if redondeo_centavos < 0 || redondeo_centavos > 1_000_000 {
        return Err(validacion("el redondeo debe estar entre 0 (sin redondeo) y $10.000"));
    }
    Ok(())
}

/// Redondeo vigente: el valor guardado si es un entero, si no 0 (sin redondeo).
pub fn redondeo_precio_configurado(guardado: Option<i64>) -> (r: i64)
    ensures
        r == match guardado {
            Some(v) => v,
            None => 0,
        },
{
    match guardado {
        Some(v) => v,
        None => 0,
    }
}

/// Un precio manual no puede ser negativo.
pub fn validar_precio_manual(usuario: &UsuarioActual, precio_centavos: i64) -> (r: Result<(), ErrorApi>)
    ensures
        !tiene_permiso(*usuario, "modificar_precios"@) ==> (r matches Err(e) && es_prohibido(e, "modificar_precios"@)),
        tiene_permiso(*usuario, "modificar_precios"@) ==> (r is Ok <==> precio_centavos >= 0),
        tiene_permiso(*usuario, "modificar_precios"@) && r is Err ==> (r matches Err(e) && es_validacion(
            e,
            "el precio no puede ser negativo"@,
        )),
{
    if let Err(e) = usuario.exigir(MODIFICAR_PRECIOS) {
        return Err(e);
    }
    if precio_centavos < 0 {
        return Err(validacion("el precio no puede ser negativo"));
    }
    Ok(())
}

/// Qué hacer con un código de barras que se quiere asignar a un producto.
#[derive(Debug, Clone, Copy, PartialEq, Eq, Structural)]
pub enum AccionCodigoBarras {
    /// El código es nuevo: se inserta.
    Insertar,
    /// El mismo código ya es de este producto: no-op idempotente.
    YaAsignado,
}

/// Asignación de un código de barras: exige `gestionar_catalogo`; el
/// código (recortado) es obligatorio; el producto debe existir; si el código
/// ya es del mismo producto no se hace nada; si es de otro, conflicto.
pub fn decidir_codigo_barras(
    usuario: &UsuarioActual,
    codigo: &str,
    producto_id: u128,
    producto_existe: bool,
    asignado_a: Option<u128>,
) -> (r: Result<(String, AccionCodigoBarras), ErrorApi>)
    ensures
        !tiene_permiso(*usuario, "gestionar_catalogo"@) ==> (r matches Err(e) && es_prohibido(e, "gestionar_catalogo"@)),
        tiene_permiso(*usuario, "gestionar_catalogo"@) ==> {
            &&& recortado(codigo@).len() == 0 ==> (r matches Err(e) && es_validacion(e, "el código es obligatorio"@))
            &&& recortado(codigo@).len() > 0 && !producto_existe ==> r == Err::<(String, AccionCodigoBarras), ErrorApi>(
                ErrorApi::NoEncontrado,
            )
            &&& recortado(codigo@).len() > 0 && producto_existe && asignado_a == Some(producto_id) ==> (r matches Ok(t)
                && t.0@ == recortado(codigo@) && t.1 == AccionCodigoBarras::YaAsignado)
            &&& recortado(codigo@).len() > 0 && producto_existe && asignado_a is Some && asignado_a != Some(producto_id)
                ==> (r matches Err(e) && es_conflicto(e, "el código ya está asignado a otro producto"@))
            &&& recortado(codigo@).len() > 0 && producto_existe && asignado_a is None ==> (r matches Ok(t) && t.0@
                == recortado(codigo@) && t.1 == AccionCodigoBarras::Insertar)
        },
{
    if let Err(e) = usuario.exigir(GESTIONAR_CATALOGO) {
        return Err(e);
    }
    let c = match obligatorio(codigo, "el código es obligatorio") {
        Ok(c) => c,
        Err(e) => return Err(e),
    };
    if !producto_existe {
        return Err(ErrorApi::NoEncontrado);
    }
    match asignado_a {
        Some(p) => {
            if p == producto_id {
                Ok((c, AccionCodigoBarras::YaAsignado))
            } else {
                Err(conflicto("el código ya está asignado a otro producto"))
            }
        },
        None => Ok((c, AccionCodigoBarras::Insertar)),
    }
}

/// Códigos de barras del alta de un producto: recortados, sin los vacíos.
pub open spec fn codigos_no_vacios(codigos: Seq<String>) -> Seq<Seq<char>>
    decreases codigos.len(),
{
    if codigos.len() == 0 {
        Seq::empty()
    } else {
        let previos = codigos_no_vacios(codigos.drop_last());
        let c = recortado(codigos.last()@);
        if c.len() == 0 {
            previos
        } else {
            previos.push(c)
        }
    }
}

/// Recorta los códigos de barras del alta y descarta los vacíos.
pub fn normalizar_codigos(codigos: &Vec<String>) -> (r: Vec<String>)
    ensures
        r@.len() == codigos_no_vacios(codigos@).len(),
        forall|i: int| 0 <= i < r@.len() ==> (#[trigger] r@[i])@ == codigos_no_vacios(codigos@)[i],
{
    let mut r: Vec<String> = Vec::new();
    let mut i: usize = 0;
    assert(codigos@.take(0) =~= Seq::<String>::empty());
    while i < codigos.len()
        invariant
            i <= codigos@.len(),
            r@.len() == codigos_no_vacios(codigos@.take(i as int)).len(),
            forall|k: int| 0 <= k < r@.len() ==> (#[trigger] r@[k])@ == codigos_no_vacios(codigos@.take(i as int))[k],
        decreases codigos@.len() - i,
    {
        proof {
            assert(codigos@.take(i + 1).drop_last() =~= codigos@.take(i as int));
            assert(codigos@.take(i + 1).last() == codigos@[i as int]);
        }
        let c = recortar(codigos[i].as_str());
        if !c.as_str().is_empty() {
            r.push(c);
        }
        i = i + 1;
    }
    assert(codigos@.take(codigos@.len() as int) =~= codigos@);
    r
}

/// Mensaje del conflicto por un código ya asignado a otro producto.
pub fn error_codigo_ocupado(codigo: &str) -> (r: ErrorApi)
    ensures
        es_conflicto(r, "el código de barras "@ + codigo@ + " ya está asignado a otro producto"@),
{
    let mut m = texto("el código de barras ");
    agregar_texto(&mut m, codigo);
    agregar_texto(&mut m, " ya está asignado a otro producto");
    ErrorApi::Conflicto(m)
}

/// Una categoría no puede ser su propio padre.
pub fn validar_padre(categoria_id: u128, padre_id: Option<u128>) -> (r: Result<(), ErrorApi>)
    ensures
        r is Ok <==> padre_id != Some(categoria_id),
        r matches Err(e) ==> es_validacion(e, "una categoría no puede ser su propio padre"@),
{
    match padre_id {
        Some(p) => {
            if p == categoria_id {
                return Err(validacion("una categoría no puede ser su propio padre"));
            }
            Ok(())
        },
        None => Ok(()),
    }
}


/// Cambios a una categoría: exige `gestionar_catalogo`; los porcentajes
/// que vengan, entre 0 y 999.
pub fn validar_cambios_categoria(usuario: &UsuarioActual, markup_pct: Option<i64>, iva_pct: Option<i64>) -> (r: Result<
    (),
    ErrorApi,
>)
    ensures
        !tiene_permiso(*usuario, "gestionar_catalogo"@) ==> (r matches Err(e) && es_prohibido(e, "gestionar_catalogo"@)),
        tiene_permiso(*usuario, "gestionar_catalogo"@) ==> {
            &&& override_invalido(markup_pct) ==> (r matches Err(e) && es_validacion(e, "markup_pct"@ + " fuera de rango"@))
            &&& !override_invalido(markup_pct) && override_invalido(iva_pct) ==> (r matches Err(e) && es_validacion(
                e,
                "iva_pct"@ + " fuera de rango"@,
            ))
            &&& !override_invalido(markup_pct) && !override_invalido(iva_pct) ==> r is Ok
        },
{
    if let Err(e) = usuario.exigir(GESTIONAR_CATALOGO) {
        return Err(e);
    }
    if let Some(v) = markup_pct {
        if let Err(e) = validar_pct("markup_pct", v) {
            return Err(e);
        }
    }
    if let Some(v) = iva_pct {
        if let Err(e) = validar_pct("iva_pct", v) {
            return Err(e);
        }
    }
    Ok(())
}

/// La categoría padre indicada tiene que existir y estar activa.
pub fn exigir_padre_activo(existe_activo: bool) -> (r: Result<(), ErrorApi>)
    ensures
        r is Ok <==> existe_activo,
        r matches Err(e) ==> es_validacion(e, "categoría padre inexistente o inactiva"@),
{
    if existe_activo {
        Ok(())
    } else {
        Err(validacion("categoría padre inexistente o inactiva"))
    }
}

/// El nombre de categoría no puede repetirse.
pub fn exigir_categoria_nueva(insertada: bool) -> (r: Result<(), ErrorApi>)
    ensures
        r is Ok <==> insertada,
        r matches Err(e) ==> es_conflicto(e, "ya existe una categoría con ese nombre"@),
{
    if insertada {
        Ok(())
    } else {
        Err(conflicto("ya existe una categoría con ese nombre"))
    }
}

/// Una categoría con productos activos no se desactiva.
pub fn validar_desactivacion_categoria(usuario: &UsuarioActual, en_uso: bool) -> (r: Result<(), ErrorApi>)
    ensures
        !tiene_permiso(*usuario, "gestionar_catalogo"@) ==> (r matches Err(e) && es_prohibido(e, "gestionar_catalogo"@)),
        tiene_permiso(*usuario, "gestionar_catalogo"@) && en_uso ==> (r matches Err(e) && es_conflicto(
            e,
            "hay productos activos en esta categoría; movelos antes de desactivarla"@,
        )),
        tiene_permiso(*usuario, "gestionar_catalogo"@) && !en_uso ==> r is Ok,
{
    if let Err(e) = usuario.exigir(GESTIONAR_CATALOGO) {
        return Err(e);
    }
    if en_uso {
        return Err(conflicto("hay productos activos en esta categoría; movelos antes de desactivarla"));
    }
    Ok(())
}

/// La categoría indicada tiene que existir y estar activa.
pub fn exigir_categoria_activa(existe_activa: bool) -> (r: Result<(), ErrorApi>)
    ensures
        r is Ok <==> existe_activa,
        r matches Err(e) ==> es_validacion(e, "categoría inexistente o inactiva"@),
{
    if existe_activa {
        Ok(())
    } else {
        Err(validacion("categoría inexistente o inactiva"))
    }
}

/// Un override de porcentaje fuera de rango.
pub open spec fn override_invalido(v: Option<i64>) -> bool {
    v matches Some(x) && !(0 <= x <= 99900)
}

/// Alta de producto: exige `gestionar_catalogo`, nombre obligatorio
/// (recortado) y overrides, si vienen, entre 0 y 999.
pub fn validar_alta_producto(
    usuario: &UsuarioActual,
    nombre: &str,
    markup_pct_override: Option<i64>,
    iva_pct_override: Option<i64>,
) -> (r: Result<String, ErrorApi>)
    ensures
        !tiene_permiso(*usuario, "gestionar_catalogo"@) ==> (r matches Err(e) && es_prohibido(e, "gestionar_catalogo"@)),
        tiene_permiso(*usuario, "gestionar_catalogo"@) ==> {
            &&& recortado(nombre@).len() == 0 ==> (r matches Err(e) && es_validacion(e, "el nombre es obligatorio"@))
            &&& recortado(nombre@).len() > 0 && override_invalido(markup_pct_override) ==> (r matches Err(e)
                && es_validacion(e, "markup_pct_override"@ + " fuera de rango"@))
            &&& recortado(nombre@).len() > 0 && !override_invalido(markup_pct_override) && override_invalido(
                iva_pct_override,
            ) ==> (r matches Err(e) && es_validacion(e, "iva_pct_override"@ + " fuera de rango"@))
            &&& recortado(nombre@).len() > 0 && !override_invalido(markup_pct_override) && !override_invalido(
                iva_pct_override,
            ) ==> (r matches Ok(n) && n@ == recortado(nombre@))
        },
{
    if let Err(e) = usuario.exigir(GESTIONAR_CATALOGO) {
        return Err(e);
    }
    let n = match obligatorio(nombre, "el nombre es obligatorio") {
        Ok(n) => n,
        Err(e) => return Err(e),
    };
    if let Some(v) = markup_pct_override {
        if let Err(e) = validar_pct("markup_pct_override", v) {
            return Err(e);
        }
    }
    if let Some(v) = iva_pct_override {
        if let Err(e) = validar_pct("iva_pct_override", v) {
            return Err(e);
        }
    }
    Ok(n)
}

/// Cambios a un producto: exige `gestionar_catalogo`; los overrides que se
/// fijen (no los que se borran) entre 0 y 999.
pub fn validar_cambios_producto(
    usuario: &UsuarioActual,
    markup_pct_override: Option<Option<i64>>,
    iva_pct_override: Option<Option<i64>>,
) -> (r: Result<(), ErrorApi>)
    ensures
        !tiene_permiso(*usuario, "gestionar_catalogo"@) ==> (r matches Err(e) && es_prohibido(e, "gestionar_catalogo"@)),
        tiene_permiso(*usuario, "gestionar_catalogo"@) ==> {
            &&& (markup_pct_override matches Some(m) && override_invalido(m)) ==> (r matches Err(e) && es_validacion(
                e,
                "markup_pct_override"@ + " fuera de rango"@,
            ))
            &&& !(markup_pct_override matches Some(m) && override_invalido(m)) && (iva_pct_override matches Some(i)
                && override_invalido(i)) ==> (r matches Err(e) && es_validacion(
                e,
                "iva_pct_override"@ + " fuera de rango"@,
            ))
            &&& !(markup_pct_override matches Some(m) && override_invalido(m)) && !(iva_pct_override matches Some(i)
                && override_invalido(i)) ==> r is Ok
        },
{
    if let Err(e) = usuario.exigir(GESTIONAR_CATALOGO) {
        return Err(e);
    }
    if let Some(Some(v)) = markup_pct_override {
        if let Err(e) = validar_pct("markup_pct_override", v) {
            return Err(e);
        }
    }
    if let Some(Some(v)) = iva_pct_override {
        if let Err(e) = validar_pct("iva_pct_override", v) {
            return Err(e);
        }
    }
    Ok(())
}

/// El código `i` del alta choca: ya estaba asignado en la base o se repite
/// antes en la misma lista (cada código se inserta en orden).
pub open spec fn codigo_en_conflicto(codigos: Seq<String>, asignados: Seq<bool>, i: int) -> bool {
    asignados[i] || exists|j: int| 0 <= j < i && (#[trigger] codigos[j])@ == codigos[i]@
}

fn repetido_antes(codigos: &Vec<String>, i: usize) -> (r: bool)
    requires
        i < codigos@.len(),
    ensures
        r == exists|j: int| 0 <= j < i && (#[trigger] codigos@[j])@ == codigos@[i as int]@,
{
    let mut j: usize = 0;
    while j < i
        invariant
            0 <= j <= i < codigos@.len(),
            forall|k: int| 0 <= k < j ==> (#[trigger] codigos@[k])@ != codigos@[i as int]@,
        decreases i - j,
    {
        if mismo_texto(codigos[j].as_str(), codigos[i].as_str()) {
            return true;
        }
        j = j + 1;
    }
    false
}

/// Asigna en orden los códigos (ya normalizados) del alta de un producto:
/// el primero que choca aborta el alta con un conflicto que lo nombra.
pub fn asignar_codigos_alta(codigos: &Vec<String>, asignados: &Vec<bool>) -> (r: Result<(), ErrorApi>)
    requires
        asignados@.len() == codigos@.len(),
    ensures
        forall|i: int|
            0 <= i < codigos@.len() && #[trigger] codigo_en_conflicto(codigos@, asignados@, i) && (forall|k: int|
                0 <= k < i ==> !codigo_en_conflicto(codigos@, asignados@, k)) ==> (r matches Err(e) && es_conflicto(
                e,
                "el código de barras "@ + codigos@[i]@ + " ya está asignado a otro producto"@,
            )),
        (forall|i: int| 0 <= i < codigos@.len() ==> !codigo_en_conflicto(codigos@, asignados@, i)) ==> r is Ok,
{
    let mut i: usize = 0;
    while i < codigos.len()
        invariant
            0 <= i <= codigos@.len(),
            asignados@.len() == codigos@.len(),
            forall|k: int| 0 <= k < i ==> !codigo_en_conflicto(codigos@, asignados@, k),
        decreases codigos@.len() - i,
    {
        let choca = asignados[i] || repetido_antes(codigos, i);
        if choca {
            assert(codigo_en_conflicto(codigos@, asignados@, i as int));
            return Err(error_codigo_ocupado(codigos[i].as_str()));
        }
        assert(!codigo_en_conflicto(codigos@, asignados@, i as int));
        i = i + 1;
    }
    Ok(())
}

} // verus!
