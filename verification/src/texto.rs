//! Texto: dígitos decimales, armado de cadenas y recorte de espacios.

use vstd::prelude::*;
use crate::error::{es_validacion, ErrorApi};

verus! {

/// Carácter del dígito decimal `d` (0..=9).
pub open spec fn caracter_digito(d: int) -> char {
    if d == 0 {
        '0'
    } else if d == 1 {
        '1'
    } else if d == 2 {
        '2'
    } else if d == 3 {
        '3'
    } else if d == 4 {
        '4'
    } else if d == 5 {
        '5'
    } else if d == 6 {
        '6'
    } else if d == 7 {
        '7'
    } else if d == 8 {
        '8'
    } else {
        '9'
    }
}

/// Dígitos decimales de `n`, sin ceros a la izquierda ("0" para el cero).
pub open spec fn digitos(n: nat) -> Seq<char>
    decreases n,
{
    if n < 10 {
        seq![caracter_digito(n as int)]
    } else {
        digitos(n / 10).push(caracter_digito((n % 10) as int))
    }
}

/// Representación decimal de un entero con signo.
pub open spec fn decimal_con_signo(v: int) -> Seq<char> {
    if v < 0 {
        seq!['-'] + digitos((-v) as nat)
    } else {
        digitos(v as nat)
    }
}

/// Carácter de un dígito.
pub fn digito(d: u64) -> (c: char)
    requires
        d < 10,
    ensures
        c == caracter_digito(d as int),
{
    match d {
        0 => '0',
        1 => '1',
        2 => '2',
        3 => '3',
        4 => '4',
        5 => '5',
        6 => '6',
        7 => '7',
        8 => '8',
        _ => '9',
    }
}

/// Dígitos decimales de `n`.
pub fn digitos_de(n: u64) -> (r: Vec<char>)
    ensures
        r@ == digitos(n as nat),
    decreases n,
{
    if n < 10 {
        let mut v = Vec::new();
        v.push(digito(n));
        v
    } else {
        let mut v = digitos_de(n / 10);
        v.push(digito(n % 10));
        v
    }
}

/// Agrega un carácter al final de un `String` (`String::push` de std).
#[verifier::external_body]
fn agregar_caracter(s: &mut String, c: char)
    ensures
        final(s)@ == old(s)@.push(c),
{
    s.push(c);
}

/// Agrega una secuencia de caracteres al final de un `String`.
pub fn agregar_caracteres(s: &mut String, cs: &Vec<char>)
    ensures
        final(s)@ == old(s)@ + cs@,
{
    let ghost inicio = s@;
    let mut i: usize = 0;
    while i < cs.len()
        invariant
            i <= cs.len(),
            s@ == inicio + cs@.take(i as int),
        decreases cs.len() - i,
    {
        agregar_caracter(s, cs[i]);
        assert(cs@.take(i as int).push(cs@[i as int]) =~= cs@.take(i + 1));
        i = i + 1;
    }
    assert(cs@.take(cs.len() as int) =~= cs@);
}

/// Texto decimal de un entero con signo.
pub fn texto_entero(v: i64) -> (r: String)
    ensures
        r@ == decimal_con_signo(v as int),
{
    let mut s = String::new();
    if v < 0 {
        agregar_caracter(&mut s, '-');
        let magnitud: u64 = (-(v + 1)) as u64 + 1;
        let d = digitos_de(magnitud);
        agregar_caracteres(&mut s, &d);
    } else {
        let d = digitos_de(v as u64);
        agregar_caracteres(&mut s, &d);
    }
    s
}

/// `c` tiene la propiedad White_Space de Unicode (PropList.txt): los
/// controles U+0009 a U+000D, el espacio, U+0085, U+00A0, U+1680, U+2000 a
/// U+200A, los separadores U+2028 y U+2029, U+202F, U+205F y U+3000.
pub open spec fn espacio_unicode(c: char) -> bool {
    let u = c as u32;
    ||| 0x9 <= u <= 0xD
    ||| u == 0x20
    ||| u == 0x85
    ||| u == 0xA0
    ||| u == 0x1680
    ||| 0x2000 <= u <= 0x200A
    ||| u == 0x2028
    ||| u == 0x2029
    ||| u == 0x202F
    ||| u == 0x205F
    ||| u == 0x3000
}

/// El carácter tiene la propiedad White_Space de Unicode (la misma que
/// consulta `char::is_whitespace`).
fn es_espacio(c: char) -> (r: bool)
    ensures
        r == espacio_unicode(c),
{
    let u = c as u32;
    (0x9 <= u && u <= 0xD) || u == 0x20 || u == 0x85 || u == 0xA0 || u == 0x1680 || (0x2000 <= u && u <= 0x200A)
        || u == 0x2028 || u == 0x2029 || u == 0x202F || u == 0x205F || u == 0x3000
}

/// `s` sin los espacios iniciales.
pub open spec fn sin_espacios_iniciales(s: Seq<char>) -> Seq<char>
    decreases s.len(),
{
    if s.len() > 0 && espacio_unicode(s[0]) {
        sin_espacios_iniciales(s.drop_first())
    } else {
        s
    }
}

/// `s` sin los espacios finales.
pub open spec fn sin_espacios_finales(s: Seq<char>) -> Seq<char>
    decreases s.len(),
{
    if s.len() > 0 && espacio_unicode(s.last()) {
        sin_espacios_finales(s.drop_last())
    } else {
        s
    }
}

/// `s` sin espacios al principio ni al final (`str::trim`).
pub open spec fn recortado(s: Seq<char>) -> Seq<char> {
    sin_espacios_finales(sin_espacios_iniciales(s))
}

/// Recorta los espacios en blanco de ambos extremos.
pub fn recortar(s: &str) -> (r: String)
    ensures
        r@ == recortado(s@),
{
    let n = s.unicode_len();
    let mut i: usize = 0;
    assert(s@.skip(0) =~= s@);
    while i < n && es_espacio(s.get_char(i))
        invariant
            n == s@.len(),
            i <= n,
            sin_espacios_iniciales(s@) == sin_espacios_iniciales(s@.skip(i as int)),
        decreases n - i,
    {
        assert(s@.skip(i as int).drop_first() =~= s@.skip(i + 1));
        i = i + 1;
    }
    let ghost medio = s@.skip(i as int);
    assert(sin_espacios_iniciales(s@) == medio);
    let mut j: usize = n;
    assert(s@.subrange(i as int, n as int) =~= medio);
    while j > i && es_espacio(s.get_char(j - 1))
        invariant
            n == s@.len(),
            i <= j <= n,
            medio == s@.skip(i as int),
            sin_espacios_finales(medio) == sin_espacios_finales(s@.subrange(i as int, j as int)),
        decreases j - i,
    {
        assert(s@.subrange(i as int, j as int).drop_last() =~= s@.subrange(i as int, j - 1));
        j = j - 1;
    }
    assert(sin_espacios_finales(s@.subrange(i as int, j as int)) == s@.subrange(i as int, j as int));
    let parte = s.substring_char(i, j);
    String::from_str(parte)
}

/// Igualdad de textos, carácter por carácter.
pub fn mismo_texto(a: &str, b: &str) -> (r: bool)
    ensures
        r == (a@ == b@),
{
    let n = a.unicode_len();
    if n != b.unicode_len() {
        return false;
    }
    let mut i: usize = 0;
    while i < n
        invariant
            n == a@.len(),
            n == b@.len(),
            i <= n,
            forall|k: int| 0 <= k < i ==> a@[k] == b@[k],
        decreases n - i,
    {
        if a.get_char(i) != b.get_char(i) {
            return false;
        }
        i = i + 1;
    }
    assert(a@ =~= b@);
    true
}

/// `n` ceros.
pub open spec fn ceros(n: nat) -> Seq<char> {
    Seq::new(n, |i: int| '0')
}

/// Cantidad en milésimas como un decimal con `escala` decimales, como lo
/// muestra `Decimal` (sin punto si la escala es 0, ceros a la derecha si pasa
/// de 3): "-10", "5.000", "1.50". Con menos de tres decimales se muestran los
/// primeros dígitos de la fracción.
pub open spec fn decimal_escalado(v: int, escala: nat) -> Seq<char> {
    let m = if v < 0 { -v } else { v };
    let f = m % 1000;
    let fraccion = seq![caracter_digito(f / 100), caracter_digito((f / 10) % 10), caracter_digito(f % 10)];
    (if v < 0 { seq!['-'] } else { Seq::<char>::empty() }) + digitos((m / 1000) as nat) + if escala == 0 {
        Seq::<char>::empty()
    } else if escala <= 3 {
        seq!['.'] + fraccion.take(escala as int)
    } else {
        seq!['.'] + fraccion + ceros((escala - 3) as nat)
    }
}

/// Texto de una cantidad en milésimas con `escala` decimales.
pub fn texto_escalado(v: i64, escala: u32) -> (r: String)
    ensures
        r@ == decimal_escalado(v as int, escala as nat),
{
    let mut s = String::new();
    let m: u64 = if v < 0 {
        agregar_caracter(&mut s, '-');
        (-(v + 1)) as u64 + 1
    } else {
        v as u64
    };
    let d = digitos_de(m / 1000);
    agregar_caracteres(&mut s, &d);
    let ghost entero = s@;
    let f = m % 1000;
    let mut fraccion: Vec<char> = Vec::new();
    fraccion.push(digito(f / 100));
    fraccion.push(digito((f / 10) % 10));
    fraccion.push(digito(f % 10));
    if escala > 0 {
        agregar_caracter(&mut s, '.');
        let tope: usize = if escala < 3 { escala as usize } else { 3 };
        let mut i: usize = 0;
        while i < tope
            invariant
                i <= tope <= 3,
                fraccion@.len() == 3,
                s@ == entero + seq!['.'] + fraccion@.take(i as int),
            decreases tope - i,
        {
            agregar_caracter(&mut s, fraccion[i]);
            assert(fraccion@.take(i as int).push(fraccion@[i as int]) =~= fraccion@.take(i + 1));
            i = i + 1;
        }
        if escala > 3 {
            assert(fraccion@.take(3) =~= fraccion@);
            let extra: u32 = escala - 3;
            let mut k: u32 = 0;
            while k < extra
                invariant
                    k <= extra,
                    s@ == entero + seq!['.'] + fraccion@ + ceros(k as nat),
                decreases extra - k,
            {
                agregar_caracter(&mut s, '0');
                assert(ceros(k as nat).push('0') =~= ceros((k + 1) as nat));
                k = k + 1;
            }
        }
    }
    proof {
        let esperado = decimal_escalado(v as int, escala as nat);
        if escala == 0 {
            assert(s@ =~= esperado);
        } else if escala <= 3 {
            assert(s@ =~= esperado);
        } else {
            assert(s@ =~= esperado);
        }
    }
    s
}

/// Agrega el texto de `t` al final de `s`.
pub fn agregar_texto(s: &mut String, t: &str)
    ensures
        final(s)@ == old(s)@ + t@,
{
    s.append(t);
}

/// Un texto obligatorio: se guarda recortado, y no puede quedar vacío.
pub fn obligatorio(valor: &str, mensaje: &str) -> (r: Result<String, ErrorApi>)
    ensures
        recortado(valor@).len() == 0 ==> (r matches Err(e) && es_validacion(e, mensaje@)),
        recortado(valor@).len() > 0 ==> (r matches Ok(t) && t@ == recortado(valor@)),
{
    let t = recortar(valor);
    if t.as_str().is_empty() {
        Err(ErrorApi::Validacion(String::from_str(mensaje)))
    } else {
        Ok(t)
    }
}

} // verus!
