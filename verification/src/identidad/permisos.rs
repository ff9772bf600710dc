//! Catálogo FIJO de permisos, definido en código y versionado con el
//! software. NUNCA creables desde la UI. La base solo almacena estos nombres.

use vstd::prelude::*;
use crate::error::{es_prohibido, es_validacion, texto, ErrorApi};
use crate::texto::{agregar_texto, mismo_texto};

verus! {

pub const VENDER: &'static str = "vender";
pub const ANULAR_VENTA: &'static str = "anular_venta";
pub const APLICAR_DESCUENTO: &'static str = "aplicar_descuento";
pub const EXCEDER_LIMITE_CREDITO: &'static str = "exceder_limite_credito";
pub const CONFIRMAR_RECEPCION: &'static str = "confirmar_recepcion";
pub const AJUSTAR_STOCK: &'static str = "ajustar_stock";
pub const MODIFICAR_PRECIOS: &'static str = "modificar_precios";
pub const GESTIONAR_USUARIOS: &'static str = "gestionar_usuarios";
pub const GESTIONAR_CLIENTES: &'static str = "gestionar_clientes";
pub const VER_REPORTES: &'static str = "ver_reportes";
pub const CERRAR_CAJA: &'static str = "cerrar_caja";
pub const ABRIR_CAJA: &'static str = "abrir_caja";
pub const GESTIONAR_CATALOGO: &'static str = "gestionar_catalogo";
pub const GESTIONAR_PROVEEDORES: &'static str = "gestionar_proveedores";
/// Único permiso con el que actúa un dispositivo de campo. No forma parte
/// del catálogo asignable a roles o usuarios.
pub const ETIQUETAR: &'static str = "etiquetar";

/// Nombres del catálogo de permisos asignables.
pub open spec fn catalogo() -> Seq<Seq<char>> {
    seq![
        "vender"@,
        "anular_venta"@,
        "aplicar_descuento"@,
        "exceder_limite_credito"@,
        "confirmar_recepcion"@,
        "ajustar_stock"@,
        "modificar_precios"@,
        "gestionar_usuarios"@,
        "gestionar_clientes"@,
        "ver_reportes"@,
        "cerrar_caja"@,
        "abrir_caja"@,
        "gestionar_catalogo"@,
        "gestionar_proveedores"@,
    ]
}

/// Todos los permisos del catálogo, en su orden.
pub fn todos() -> (r: Vec<&'static str>)
    ensures
        r@.len() == catalogo().len(),
        forall|i: int| 0 <= i < r@.len() ==> (#[trigger] r@[i])@ == catalogo()[i],
{
    let mut v: Vec<&'static str> = Vec::new();
    v.push("vender");
    v.push("anular_venta");
    v.push("aplicar_descuento");
    v.push("exceder_limite_credito");
    v.push("confirmar_recepcion");
    v.push("ajustar_stock");
    v.push("modificar_precios");
    v.push("gestionar_usuarios");
    v.push("gestionar_clientes");
    v.push("ver_reportes");
    v.push("cerrar_caja");
    v.push("abrir_caja");
    v.push("gestionar_catalogo");
    v.push("gestionar_proveedores");
    v
}

/// El nombre pertenece al catálogo fijo.
pub fn es_valido(permiso: &str) -> (r: bool)
    ensures
        r == catalogo().contains(permiso@),
{
    let lista = todos();
    let mut i: usize = 0;
    while i < lista.len()
        invariant
            i <= lista@.len(),
            lista@.len() == catalogo().len(),
            forall|k: int| 0 <= k < lista@.len() ==> (#[trigger] lista@[k])@ == catalogo()[k],
            forall|k: int| 0 <= k < i ==> catalogo()[k] != permiso@,
        decreases lista@.len() - i,
    {
        if mismo_texto(lista[i], permiso) {
            assert(catalogo()[i as int] == permiso@);
            return true;
        }
        i = i + 1;
    }
    assert(!catalogo().contains(permiso@));
    false
}

/// Usuario autenticado del request. Los permisos (rol + individuales
/// aditivos) se cargan de la base en cada request: un cambio de rol o una
/// desactivación tiene efecto inmediato.
#[derive(Debug, Clone)]
pub struct UsuarioActual {
    pub id: u128,
    pub nombre: String,
    pub permisos: Vec<String>,
}

/// El usuario tiene el permiso.
pub open spec fn tiene_permiso(u: UsuarioActual, permiso: Seq<char>) -> bool {
    exists|i: int| 0 <= i < u.permisos@.len() && (#[trigger] u.permisos@[i])@ == permiso
}

/// El texto está en la lista.
pub open spec fn en_lista(lista: Seq<String>, texto: Seq<char>) -> bool {
    exists|i: int| 0 <= i < lista.len() && (#[trigger] lista[i])@ == texto
}

/// Ningún texto de la lista se repite.
pub open spec fn sin_repetir(lista: Seq<String>) -> bool {
    forall|i: int, j: int| 0 <= i < j < lista.len() ==> (#[trigger] lista[i])@ != (#[trigger] lista[j])@
}

fn buscar_texto(lista: &Vec<String>, texto: &str) -> (r: bool)
    ensures
        r == en_lista(lista@, texto@),
{
    let mut i: usize = 0;
    while i < lista.len()
        invariant
            i <= lista@.len(),
            forall|k: int| 0 <= k < i ==> (#[trigger] lista@[k])@ != texto@,
        decreases lista@.len() - i,
    {
        if mismo_texto(lista[i].as_str(), texto) {
            assert(lista@[i as int]@ == texto@);
            return true;
        }
        i = i + 1;
    }
    false
}

impl UsuarioActual {
    /// Arma el usuario autenticado con su conjunto de permisos (rol más
    /// individuales): un permiso que llega dos veces queda una sola.
    pub fn nuevo(id: u128, nombre: String, permisos: Vec<String>) -> (r: UsuarioActual)
        ensures
            r.id == id,
            r.nombre == nombre,
            sin_repetir(r.permisos@),
            forall|p: Seq<char>| #[trigger] tiene_permiso(r, p) <==> en_lista(permisos@, p),
    {
        let mut conjunto: Vec<String> = Vec::new();
        let mut i: usize = 0;
        while i < permisos.len()
            invariant
                i <= permisos@.len(),
                sin_repetir(conjunto@),
                forall|p: Seq<char>| #[trigger] en_lista(conjunto@, p) <==> en_lista(permisos@.take(i as int), p),
            decreases permisos@.len() - i,
        {
            let ghost antes = conjunto@;
            let ghost previos = permisos@.take(i as int);
            let ghost siguientes = permisos@.take(i + 1);
            assert(siguientes == previos.push(permisos@[i as int]));
            let ya = buscar_texto(&conjunto, permisos[i].as_str());
            if !ya {
                let copia = permisos[i].clone();
                conjunto.push(copia);
                assert forall|a: int, b: int| 0 <= a < b < conjunto@.len() implies (#[trigger] conjunto@[a])@ != (
                #[trigger] conjunto@[b])@ by {
                    if b == antes.len() {
                        assert(conjunto@[a] == antes[a]);
                    } else {
                        assert(conjunto@[a] == antes[a] && conjunto@[b] == antes[b]);
                    }
                }
            }
            assert forall|p: Seq<char>| #[trigger] en_lista(conjunto@, p) <==> en_lista(siguientes, p) by {
                if en_lista(conjunto@, p) {
                    let k = choose|k: int| 0 <= k < conjunto@.len() && (#[trigger] conjunto@[k])@ == p;
                    if k < antes.len() {
                        assert(conjunto@[k] == antes[k]);
                        assert(en_lista(antes, p));
                        let m = choose|m: int| 0 <= m < previos.len() && (#[trigger] previos[m])@ == p;
                        assert(siguientes[m] == previos[m]);
                    } else {
                        assert(siguientes[i as int] == permisos@[i as int]);
                    }
                }
                if en_lista(siguientes, p) {
                    let m = choose|m: int| 0 <= m < siguientes.len() && (#[trigger] siguientes[m])@ == p;
                    if m < previos.len() {
                        assert(previos[m] == siguientes[m]);
                        assert(en_lista(previos, p));
                        assert(en_lista(antes, p));
                        let k = choose|k: int| 0 <= k < antes.len() && (#[trigger] antes[k])@ == p;
                        if conjunto@.len() > antes.len() {
                            assert(conjunto@[k] == antes[k]);
                        }
                        assert(conjunto@[k] == antes[k]);
                    } else {
                        if conjunto@.len() > antes.len() {
                            assert(conjunto@[antes.len() as int]@ == p);
                        } else {
                            assert(ya);
                            assert(p == permisos@[i as int]@);
                            assert(en_lista(antes, p));
                        }
                    }
                }
            }
            i = i + 1;
        }
        assert(permisos@.take(permisos@.len() as int) =~= permisos@);
        let r = UsuarioActual { id, nombre, permisos: conjunto };
        assert forall|p: Seq<char>| #[trigger] tiene_permiso(r, p) <==> en_lista(permisos@, p) by {
            assert(tiene_permiso(r, p) == en_lista(r.permisos@, p));
        }
        r
    }

    /// Denegado por defecto: si el permiso no está en el conjunto, 403.
    pub fn exigir(&self, permiso: &str) -> (r: Result<(), ErrorApi>)
        ensures
            r is Ok <==> tiene_permiso(*self, permiso@),
            r matches Err(e) ==> es_prohibido(e, permiso@),
    {
        let mut i: usize = 0;
        while i < self.permisos.len()
            invariant
                i <= self.permisos@.len(),
                forall|k: int| 0 <= k < i ==> (#[trigger] self.permisos@[k])@ != permiso@,
            decreases self.permisos@.len() - i,
        {
            if mismo_texto(self.permisos[i].as_str(), permiso) {
                return Ok(());
            }
            i = i + 1;
        }
        Err(ErrorApi::Prohibido(String::from_str(permiso)))
    }
}

/// Dispositivo de campo autenticado por HMAC. Actúa únicamente con el
/// permiso `etiquetar` (mínimo privilegio): no hay forma de que pida otro.
#[derive(Debug, Clone)]
pub struct DispositivoActual {
    pub id: u128,
    pub device_id: String,
}

impl DispositivoActual {
    pub fn exigir(&self, permiso: &str) -> (r: Result<(), ErrorApi>)
        ensures
            r is Ok <==> permiso@ == "etiquetar"@,
            r matches Err(e) ==> es_prohibido(e, permiso@),
    {
        if mismo_texto(permiso, ETIQUETAR) {
            Ok(())
        } else {
            Err(ErrorApi::Prohibido(String::from_str(permiso)))
        }
    }
}

/// Todos los permisos de la lista son del catálogo; si no, el error nombra
/// el primero desconocido.
pub fn validar_permisos(lista: &Vec<String>) -> (r: Result<(), ErrorApi>)
    ensures
        primer_permiso_desconocido(lista@) matches Some(p) ==> (r matches Err(e) && es_validacion(
            e,
            "permiso desconocido: "@ + p,
        )),
        primer_permiso_desconocido(lista@) is None ==> r is Ok,
        r is Ok <==> forall|i: int| 0 <= i < lista@.len() ==> catalogo().contains((#[trigger] lista@[i])@),
        r is Err ==> exists|i: int| 0 <= i < lista@.len() && !catalogo().contains((#[trigger] lista@[i])@)
            && (forall|k: int| 0 <= k < i ==> catalogo().contains((#[trigger] lista@[k])@))
            && (r matches Err(e) && es_validacion(e, "permiso desconocido: "@ + lista@[i]@)),
{
    let mut i: usize = 0;
    while i < lista.len()
        invariant
            i <= lista@.len(),
            forall|k: int| 0 <= k < i ==> catalogo().contains((#[trigger] lista@[k])@),
            primer_permiso_desconocido(lista@.take(i as int)) is None,
        decreases lista@.len() - i,
    {
        assert(lista@.take(i + 1).drop_last() =~= lista@.take(i as int));
        if !es_valido(lista[i].as_str()) {
            proof {
                lema_primer_desconocido_prefijo(lista@, i + 1);
            }
            let mut m = texto("permiso desconocido: ");
            agregar_texto(&mut m, lista[i].as_str());
            return Err(ErrorApi::Validacion(m));
        }
        i = i + 1;
    }
    assert(lista@.take(lista@.len() as int) =~= lista@);
    Ok(())
}

/// El primer nombre de la lista que no es del catálogo, si hay alguno.
pub open spec fn primer_permiso_desconocido(lista: Seq<String>) -> Option<Seq<char>>
    decreases lista.len(),
{
    if lista.len() == 0 {
        None
    } else {
        match primer_permiso_desconocido(lista.drop_last()) {
            Some(p) => Some(p),
            None => if catalogo().contains(lista.last()@) {
                None
            } else {
                Some(lista.last()@)
            },
        }
    }
}

proof fn lema_primer_desconocido_prefijo(lista: Seq<String>, n: int)
    requires
        0 <= n <= lista.len(),
        primer_permiso_desconocido(lista.take(n)) is Some,
    ensures
        primer_permiso_desconocido(lista) == primer_permiso_desconocido(lista.take(n)),
    decreases lista.len() - n,
{
    if n < lista.len() {
        assert(lista.take(n + 1).drop_last() =~= lista.take(n));
        lema_primer_desconocido_prefijo(lista, n + 1);
    } else {
        assert(lista.take(n) =~= lista);
    }
}

} // verus!
