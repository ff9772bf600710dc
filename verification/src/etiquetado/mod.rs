//! Etiquetado: el texto del precio que imprime la etiquetadora térmica y el
//! recorrido físico de etiquetado de la recepción activa. El dispositivo es
//! tonto: escanea un código y muestra lo que se decide acá.

use vstd::prelude::*;
use crate::compras::EstadoRecepcion;
use crate::compras::recepcion::{contiene_producto, posicion, productos_unicos, ItemRecepcion, Recepcion};
use crate::texto::{agregar_caracteres, caracter_digito, digito, digitos, digitos_de};

verus! {

/// Dígitos con un punto como separador de miles, cada tres desde la derecha.
pub open spec fn con_separador_de_miles(d: Seq<char>) -> Seq<char>
    decreases d.len(),
{
    if d.len() <= 3 {
        d
    } else {
        con_separador_de_miles(d.take(d.len() - 3)) + seq!['.'] + d.skip(d.len() - 3)
    }
}

/// Texto de la etiqueta: "$", los pesos con separador de miles y, solo si
/// hay centavos, coma y dos dígitos. Los montos negativos se muestran como $0.
pub open spec fn formato_precio(centavos: int) -> Seq<char> {
    let c = if centavos < 0 { 0 } else { centavos };
    let pesos = c / 100;
    let fraccion = c % 100;
    seq!['$'] + con_separador_de_miles(digitos(pesos as nat)) + if fraccion == 0 {
        Seq::<char>::empty()
    } else {
        seq![',', caracter_digito(fraccion / 10), caracter_digito(fraccion % 10)]
    }
}

/// Los primeros `n` dígitos de `d`, con separador de miles.
fn agrupar_miles(d: &Vec<char>, n: usize) -> (r: Vec<char>)
    requires
        n <= d.len(),
    ensures
        r@ == con_separador_de_miles(d@.take(n as int)),
    decreases n,
{
    if n <= 3 {
        let mut r = Vec::new();
        let mut i: usize = 0;
        while i < n
            invariant
                i <= n,
                n <= d.len(),
                r@ == d@.take(i as int),
            decreases n - i,
        {
            r.push(d[i]);
            assert(d@.take(i as int).push(d@[i as int]) =~= d@.take(i + 1));
            i = i + 1;
        }
        r
    } else {
        let mut r = agrupar_miles(d, n - 3);
        r.push('.');
        r.push(d[n - 3]);
        r.push(d[n - 2]);
        r.push(d[n - 1]);
        assert(d@.take(n as int).take(n - 3) =~= d@.take(n - 3));
        assert(d@.take(n as int).skip(n - 3) =~= seq![d@[n - 3], d@[n - 2], d@[n - 1]]);
        assert(r@ =~= con_separador_de_miles(d@.take(n - 3)) + seq!['.'] + seq![d@[n - 3], d@[n - 2], d@[n - 1]]);
        r
    }
}

/// Formatea centavos como precio ya listo para imprimir en la etiqueta
/// térmica: pesos argentinos, separador de miles con punto, sin decimales si
/// los centavos son cero ($1.850), con coma decimal si no ($1.850,50). El
/// firmware imprime este texto tal cual, sin procesarlo: el redondeo y el
/// signo son responsabilidad exclusiva de esta función.
pub fn formato_precio_centavos(centavos: i64) -> (r: String)
    ensures
        r@ == formato_precio(centavos as int),
{
    let c: u64 = if centavos < 0 { 0 } else { centavos as u64 };
    let pesos = c / 100;
    let fraccion = c % 100;
    let d = digitos_de(pesos);
    let miles = agrupar_miles(&d, d.len());
    assert(d@.take(d.len() as int) =~= d@);
    let mut s = String::new();
    let mut cola: Vec<char> = Vec::new();
    cola.push('$');
    agregar_caracteres(&mut s, &cola);
    agregar_caracteres(&mut s, &miles);
    if fraccion != 0 {
        let mut centavos_txt: Vec<char> = Vec::new();
        centavos_txt.push(',');
        centavos_txt.push(digito(fraccion / 10));
        centavos_txt.push(digito(fraccion % 10));
        agregar_caracteres(&mut s, &centavos_txt);
    }
    assert(s@ =~= formato_precio(centavos as int));
    s
}


/// Cantidad de ítems que falta etiquetar.
pub open spec fn pendientes(items: Seq<ItemRecepcion>) -> nat
    decreases items.len(),
{
    if items.len() == 0 {
        0
    } else {
        pendientes(items.drop_last()) + if items.last().etiquetado {
            0nat
        } else {
            1nat
        }
    }
}

/// Cuenta los ítems que falta etiquetar.
pub fn contar_pendientes(items: &Vec<ItemRecepcion>) -> (r: usize)
    ensures
        r == pendientes(items@),
{
    let mut n: usize = 0;
    let mut i: usize = 0;
    while i < items.len()
        invariant
            0 <= i <= items@.len(),
            n == pendientes(items@.take(i as int)),
            n <= i,
        decreases items@.len() - i,
    {
        assert(items@.take(i + 1).drop_last() =~= items@.take(i as int));
        if !items[i].etiquetado {
            n = n + 1;
        }
        i = i + 1;
    }
    assert(items@.take(items@.len() as int) =~= items@);
    n
}

proof fn lema_pendientes_marcar(items: Seq<ItemRecepcion>, k: int, marcado: ItemRecepcion)
    requires
        0 <= k < items.len(),
        !items[k].etiquetado,
        marcado.etiquetado,
    ensures
        pendientes(items) >= 1,
        pendientes(items.update(k, marcado)) == pendientes(items) - 1,
    decreases items.len(),
{
    let u = items.update(k, marcado);
    if k == items.len() - 1 {
        assert(u.drop_last() =~= items.drop_last());
    } else {
        lema_pendientes_marcar(items.drop_last(), k, marcado);
        assert(u.drop_last() =~= items.drop_last().update(k, marcado));
    }
}

/// Qué pasó al etiquetar un producto en la recepción activa.
#[derive(Debug, Clone, Copy, PartialEq, Eq, Structural)]
pub enum ResultadoEtiquetado {
    /// El producto no tiene ítem en la recepción.
    NoEnRecepcion,
    /// Ya estaba etiquetado: no hay nada más que hacer.
    YaEtiquetado,
    /// Se marcó el ítem; cuántos quedan pendientes.
    Etiquetado { item_id: u128, precio_final_centavos: i64, pendientes_restantes: usize },
}

impl Recepcion {
    /// Marca como etiquetado el ítem del producto. Si era el último
    /// pendiente, la recepción pasa a completada. Idempotente.
    pub fn etiquetar_producto(&mut self, producto_id: u128) -> (r: ResultadoEtiquetado)
        requires
            productos_unicos(old(self).items@),
        ensures
            productos_unicos(final(self).items@),
            pendientes(final(self).items@) <= final(self).items@.len(),
            final(self).items@.len() == old(self).items@.len(),
            final(self).id == old(self).id,
            final(self).precios_con_iva == old(self).precios_con_iva,
            !contiene_producto(old(self).items@, producto_id) ==> r == ResultadoEtiquetado::NoEnRecepcion
                && *final(self) == *old(self),
            contiene_producto(old(self).items@, producto_id) ==> {
                let k = posicion(old(self).items@, producto_id);
                let it = old(self).items@[k];
                &&& it.etiquetado ==> r == ResultadoEtiquetado::YaEtiquetado && *final(self) == *old(self)
                &&& !it.etiquetado ==> {
                    &&& final(self).items@ == old(self).items@.update(k, ItemRecepcion { etiquetado: true, ..it })
                    &&& pendientes(final(self).items@) == pendientes(old(self).items@) - 1
                    &&& r matches ResultadoEtiquetado::Etiquetado { item_id, precio_final_centavos, pendientes_restantes }
                        && item_id == it.id && precio_final_centavos == it.precio_final_centavos
                        && pendientes_restantes == pendientes(final(self).items@)
                    &&& final(self).estado == if pendientes(final(self).items@) == 0 {
                        EstadoRecepcion::Completada
                    } else {
                        old(self).estado
                    }
                }
            },
    {
        let ghost viejos = self.items@;
        proof {
            lema_pendientes_cota(viejos);
        }
        let mut k: usize = 0;
        while k < self.items.len()
            invariant
                self.items@ == viejos,
                0 <= k <= viejos.len(),
                forall|j: int| 0 <= j < k ==> (#[trigger] viejos[j]).producto_id != producto_id,
            ensures
                self.items@ == viejos,
                0 <= k <= viejos.len(),
                forall|j: int| 0 <= j < k ==> (#[trigger] viejos[j]).producto_id != producto_id,
                k < viejos.len() ==> viejos[k as int].producto_id == producto_id,
            decreases viejos.len() - k,
        {
            if self.items[k].producto_id == producto_id {
                break;
            }
            k = k + 1;
        }
        if k == self.items.len() {
            assert(!contiene_producto(viejos, producto_id)) by {
                if contiene_producto(viejos, producto_id) {
                    let j = choose|j: int| 0 <= j < viejos.len() && (#[trigger] viejos[j]).producto_id == producto_id;
                    assert(viejos[j].producto_id == producto_id);
                }
            }
            return ResultadoEtiquetado::NoEnRecepcion;
        }
        proof {
            assert(viejos[k as int].producto_id == producto_id);
            let j = posicion(viejos, producto_id);
            assert(0 <= j < viejos.len() && viejos[j].producto_id == producto_id);
        }
        let it = self.items[k];
        if it.etiquetado {
            return ResultadoEtiquetado::YaEtiquetado;
        }
        self.items.set(k, ItemRecepcion { etiquetado: true, ..it });
        proof {
            lema_pendientes_marcar(viejos, k as int, ItemRecepcion { etiquetado: true, ..it });
            assert forall|i: int, j: int|
                0 <= i < self.items@.len() && 0 <= j < self.items@.len() && i != j implies (
                #[trigger] self.items@[i]).producto_id != (#[trigger] self.items@[j]).producto_id by {
                assert(viejos[i].producto_id == self.items@[i].producto_id);
                assert(viejos[j].producto_id == self.items@[j].producto_id);
            }
        }
        let restantes = contar_pendientes(&self.items);
        proof {
            lema_pendientes_cota(self.items@);
        }
        if restantes == 0 {
            self.estado = EstadoRecepcion::Completada;
        }
        ResultadoEtiquetado::Etiquetado {
            item_id: it.id,
            precio_final_centavos: it.precio_final_centavos,
            pendientes_restantes: restantes,
        }
    }
}

/// Etiquetar dos veces el mismo producto: la segunda no cambia nada. Cada
/// etiqueta nueva descuenta exactamente un pendiente.
pub proof fn ley_etiquetar_es_idempotente(items: Seq<ItemRecepcion>, producto_id: u128)
    requires
        productos_unicos(items),
        contiene_producto(items, producto_id),
    ensures
        ({
            let k = posicion(items, producto_id);
            let marcados = items.update(k, ItemRecepcion { etiquetado: true, ..items[k] });
            &&& contiene_producto(marcados, producto_id)
            &&& posicion(marcados, producto_id) == k
            &&& marcados[k].etiquetado
            &&& !items[k].etiquetado ==> pendientes(marcados) == pendientes(items) - 1
        }),
{
    let k = posicion(items, producto_id);
    let marcados = items.update(k, ItemRecepcion { etiquetado: true, ..items[k] });
    assert(0 <= k < items.len() && items[k].producto_id == producto_id);
    assert(marcados[k].producto_id == producto_id);
    let j = posicion(marcados, producto_id);
    assert(0 <= j < marcados.len() && marcados[j].producto_id == producto_id);
    if j != k {
        assert(items[j].producto_id == producto_id);
    }
    if !items[k].etiquetado {
        lema_pendientes_marcar(items, k, ItemRecepcion { etiquetado: true, ..items[k] });
    }
}

/// Una recepción candidata a ser la activa del etiquetado.
#[derive(Debug, Clone, Copy, PartialEq, Eq, Structural)]
pub struct CandidataEtiquetado {
    pub estado: EstadoRecepcion,
    /// Instante de la confirmación (milisegundos); `None` si no se confirmó.
    pub confirmada_en: Option<i64>,
    /// Ítems que falta etiquetar.
    pub pendientes: u64,
}

/// Puede ser la activa: confirmada y con ítems pendientes.
pub open spec fn elegible(c: CandidataEtiquetado) -> bool {
    c.estado == EstadoRecepcion::Confirmada && c.pendientes > 0
}

/// Instante de confirmación para ordenar de la más reciente a la más vieja.
/// Como en `ORDER BY confirmada_en DESC` de PostgreSQL, sin fecha va primero.
pub open spec fn instante(c: CandidataEtiquetado) -> int {
    match c.confirmada_en {
        Some(t) => t as int,
        None => i64::MAX as int + 1,
    }
}

/// Recepción activa del etiquetado: la confirmada más recientemente entre
/// las que tienen ítems pendientes (la primera, si hay empate).
pub fn recepcion_activa(candidatas: &Vec<CandidataEtiquetado>) -> (r: Option<usize>)
    ensures
        r is None <==> forall|i: int| 0 <= i < candidatas@.len() ==> !elegible(#[trigger] candidatas@[i]),
        r matches Some(k) ==> {
            &&& k < candidatas@.len()
            &&& elegible(candidatas@[k as int])
            &&& forall|i: int|
                0 <= i < candidatas@.len() && elegible(#[trigger] candidatas@[i]) ==> instante(candidatas@[i])
                    <= instante(candidatas@[k as int])
        },
{
    let mut mejor: Option<usize> = None;
    let mut i: usize = 0;
    while i < candidatas.len()
        invariant
            0 <= i <= candidatas@.len(),
            mejor is None <==> forall|j: int| 0 <= j < i ==> !elegible(#[trigger] candidatas@[j]),
            mejor matches Some(k) ==> {
                &&& k < i
                &&& elegible(candidatas@[k as int])
                &&& forall|j: int|
                    0 <= j < i && elegible(#[trigger] candidatas@[j]) ==> instante(candidatas@[j]) <= instante(
                        candidatas@[k as int],
                    )
            },
        decreases candidatas@.len() - i,
    {
        let c = candidatas[i];
        if c.estado == EstadoRecepcion::Confirmada && c.pendientes > 0 {
            match mejor {
                None => {
                    mejor = Some(i);
                },
                Some(k) => {
                    let b = candidatas[k];
                    let supera = match (c.confirmada_en, b.confirmada_en) {
                        (Some(t), Some(u)) => t > u,
                        (None, Some(_)) => true,
                        (_, None) => false,
                    };
                    if supera {
                        mejor = Some(i);
                    }
                },
            }
        }
        i = i + 1;
    }
    mejor
}

/// Respuesta de un escaneo de la etiquetadora.
#[derive(Debug, Clone, PartialEq, Eq)]
pub enum ResultadoEscaneo {
    SinRecepcionActiva,
    CodigoDesconocido,
    NoEnRecepcion,
    YaEtiquetado,
    /// Etiqueta a imprimir: nombre, precio formateado y código escaneado.
    Etiqueta { nombre: String, precio: String, codigo_barras: String, pendientes_restantes: usize },
}

/// Un escaneo completo: sin recepción activa o con un código desconocido
/// no se toca nada; si no, se etiqueta el producto del código en la
/// recepción activa. Devuelve la respuesta y la recepción como quedó.
pub fn escanear(
    activa: Option<Recepcion>,
    producto_del_codigo: Option<u128>,
    nombre_producto: String,
    codigo: String,
) -> (r: (ResultadoEscaneo, Option<Recepcion>))
    requires
        activa matches Some(rec) ==> productos_unicos(rec.items@),
    ensures
        activa is None ==> r.0 == ResultadoEscaneo::SinRecepcionActiva && r.1 is None,
        activa matches Some(rec) ==> {
            &&& r.1 matches Some(despues) && despues.id == rec.id
            &&& producto_del_codigo is None ==> r.0 == ResultadoEscaneo::CodigoDesconocido && r.1 == Some(rec)
            &&& producto_del_codigo matches Some(p) ==> {
                &&& !contiene_producto(rec.items@, p) ==> r.0 == ResultadoEscaneo::NoEnRecepcion && r.1 == Some(rec)
                &&& contiene_producto(rec.items@, p) && rec.items@[posicion(rec.items@, p)].etiquetado ==> r.0
                    == ResultadoEscaneo::YaEtiquetado && r.1 == Some(rec)
                &&& contiene_producto(rec.items@, p) && !rec.items@[posicion(rec.items@, p)].etiquetado ==> {
                    let it = rec.items@[posicion(rec.items@, p)];
                    &&& r.1 matches Some(despues) && despues.items@ == rec.items@.update(
                        posicion(rec.items@, p),
                        ItemRecepcion { etiquetado: true, ..it },
                    ) && despues.estado == (if pendientes(despues.items@) == 0 {
                        EstadoRecepcion::Completada
                    } else {
                        rec.estado
                    })
                    &&& r.0 matches ResultadoEscaneo::Etiqueta { nombre, precio, codigo_barras, pendientes_restantes } && nombre
                        == nombre_producto && precio@ == formato_precio(it.precio_final_centavos as int)
                        && codigo_barras == codigo && pendientes_restantes == pendientes(rec.items@) - 1
                }
            }
        },
{
    let mut rec = match activa {
        Some(r) => r,
        None => return (ResultadoEscaneo::SinRecepcionActiva, None),
    };
    let p = match producto_del_codigo {
        Some(p) => p,
        None => return (ResultadoEscaneo::CodigoDesconocido, Some(rec)),
    };
    let res = match rec.etiquetar_producto(p) {
        ResultadoEtiquetado::NoEnRecepcion => ResultadoEscaneo::NoEnRecepcion,
        ResultadoEtiquetado::YaEtiquetado => ResultadoEscaneo::YaEtiquetado,
        ResultadoEtiquetado::Etiquetado { item_id: _, precio_final_centavos, pendientes_restantes } => {
            ResultadoEscaneo::Etiqueta {
                nombre: nombre_producto,
                precio: formato_precio_centavos(precio_final_centavos),
                codigo_barras: codigo,
                pendientes_restantes,
            }
        },
    };
    (res, Some(rec))
}

/// Pendientes de la recepción activa, o -1 si no hay ninguna.
pub fn estado_pendientes(activa: &Option<Recepcion>) -> (r: i64)
    requires
        activa matches Some(rec) ==> rec.items@.len() <= i64::MAX,
    ensures
        activa is None ==> r == -1,
        activa matches Some(rec) ==> r == pendientes(rec.items@),
{
    match activa {
        None => -1,
        Some(rec) => {
            let n = contar_pendientes(&rec.items);
            proof {
                lema_pendientes_cota(rec.items@);
            }
            n as i64
        },
    }
}

proof fn lema_pendientes_cota(items: Seq<ItemRecepcion>)
    ensures
        pendientes(items) <= items.len(),
    decreases items.len(),
{
    if items.len() > 0 {
        lema_pendientes_cota(items.drop_last());
    }
}

} // verus!
