//! Paths, held as their text. Splitting and joining them is done by
//! `std::path` (for the platform the crate is built for), whether one exists
//! is asked of the file system; what the library decides around those calls
//! is verified here: the free name a moved file gets.

use vstd::prelude::*;

use crate::texto::{decimal, decimal_inyectivo, entero_a_texto};

verus! {

/// The parent of a path, as `std::path::Path::parent` gives it (read back as
/// text); `None` for a root or an empty path.
pub uninterp spec fn padre_ruta(ruta: Seq<char>) -> Option<Seq<char>>;

/// The file name of a path without its final extension, as
/// `std::path::Path::file_stem` gives it; `None` when there is no file name.
pub uninterp spec fn tallo_ruta(ruta: Seq<char>) -> Option<Seq<char>>;

/// The extension of a path, without its dot, as `std::path::Path::extension`
/// gives it; `None` when there is none.
pub uninterp spec fn extension_ruta(ruta: Seq<char>) -> Option<Seq<char>>;

/// The last component of a path, as `std::path::Path::file_name` gives it;
/// `None` when the path ends in `..` or has no component.
pub uninterp spec fn nombre_ruta(ruta: Seq<char>) -> Option<Seq<char>>;

/// The path that `std::path::Path::join` makes of `base` and `parte`.
pub uninterp spec fn unir_rutas(base: Seq<char>, parte: Seq<char>) -> Seq<char>;

/// Whether `std::path::Path`'s `==` takes the two paths as equal (it compares
/// them component by component).
pub uninterp spec fn rutas_iguales(a: Seq<char>, b: Seq<char>) -> bool;

/// `std::path::Path::parent`, read back as text. Trusted: the result is the
/// name `padre_ruta` of the path.
#[verifier::external_body]
pub(crate) fn padre_de(ruta: &str) -> (r: Option<String>)
    ensures
        r is None <==> padre_ruta(ruta@) is None,
        r matches Some(p) ==> padre_ruta(ruta@) == Some(p@),
{
    match std::path::Path::new(ruta).parent() {
        Some(p) => Some(p.to_string_lossy().to_string()),
        None => None,
    }
}

/// `std::path::Path::file_stem`, read back as text. Trusted: the result is
/// the name `tallo_ruta` of the path.
#[verifier::external_body]
pub(crate) fn tallo_de(ruta: &str) -> (r: Option<String>)
    ensures
        r is None <==> tallo_ruta(ruta@) is None,
        r matches Some(t) ==> tallo_ruta(ruta@) == Some(t@),
{
    match std::path::Path::new(ruta).file_stem() {
        Some(t) => Some(t.to_string_lossy().to_string()),
        None => None,
    }
}

/// `std::path::Path::extension`, read back as text. Trusted: the result is
/// the name `extension_ruta` of the path.
#[verifier::external_body]
pub(crate) fn extension_de(ruta: &str) -> (r: Option<String>)
    ensures
        r is None <==> extension_ruta(ruta@) is None,
        r matches Some(e) ==> extension_ruta(ruta@) == Some(e@),
{
    match std::path::Path::new(ruta).extension() {
        Some(e) => Some(e.to_string_lossy().to_string()),
        None => None,
    }
}

/// `std::path::Path::file_name`, read back as text. Trusted: the result is
/// the name `nombre_ruta` of the path.
#[verifier::external_body]
pub(crate) fn nombre_de(ruta: &str) -> (r: Option<String>)
    ensures
        r is None <==> nombre_ruta(ruta@) is None,
        r matches Some(n) ==> nombre_ruta(ruta@) == Some(n@),
{
    match std::path::Path::new(ruta).file_name() {
        Some(n) => Some(n.to_string_lossy().to_string()),
        None => None,
    }
}

/// `std::path::Path::join`, read back as text. Trusted: the result is the
/// name `unir_rutas` of the two arguments.
#[verifier::external_body]
pub(crate) fn unir(base: &str, parte: &str) -> (r: String)
    ensures
        r@ == unir_rutas(base@, parte@),
{
    std::path::Path::new(base).join(parte).to_string_lossy().to_string()
}

/// `==` on `std::path::Path`. Trusted: the result is the name
/// `rutas_iguales` of the two paths, and a path is equal to itself (`Path`'s
/// `==` compares the components, which are the same for the same text).
#[verifier::external_body]
pub(crate) fn misma_ruta(a: &str, b: &str) -> (r: bool)
    ensures
        r == rutas_iguales(a@, b@),
        a@ == b@ ==> r,
{
    std::path::Path::new(a) == std::path::Path::new(b)
}

/// `std::path::Path::exists`: whether something exists at the path right
/// now. Nothing is stated of the answer: it depends on the disk at the time
/// of the call, and two calls on the same path may differ.
#[verifier::external_body]
pub(crate) fn existe(ruta: &str) -> (r: bool) {
    std::path::Path::new(ruta).exists()
}

/// The name that stands in for a taken one: the stem, an underscore, the
/// counter in decimal, the extension (with its dot, or empty).
pub open spec fn nombre_alternativo_spec(tallo: Seq<char>, contador: int, extension: Seq<char>) -> Seq<char> {
    tallo + seq!['_'] + decimal(contador) + extension
}

/// The stem of a path, or empty when it has none.
pub open spec fn tallo_o_vacio(ruta: Seq<char>) -> Seq<char> {
    match tallo_ruta(ruta) {
        Some(t) => t,
        None => seq![],
    }
}

/// The extension of a path with a leading dot, or empty when it has none.
pub open spec fn punto_extension(ruta: Seq<char>) -> Seq<char> {
    match extension_ruta(ruta) {
        Some(e) => seq!['.'] + e,
        None => seq![],
    }
}

/// The parent of a path, or empty when it has none.
pub open spec fn padre_o_vacio(ruta: Seq<char>) -> Seq<char> {
    match padre_ruta(ruta) {
        Some(p) => p,
        None => seq![],
    }
}

/// The path tried, for a taken path, with the counter `contador`: same
/// folder, name `stem_contador.ext`.
pub open spec fn candidato(ruta: Seq<char>, contador: int) -> Seq<char> {
    unir_rutas(
        padre_o_vacio(ruta),
        nombre_alternativo_spec(tallo_o_vacio(ruta), contador, punto_extension(ruta)),
    )
}

/// Whether `destino` is what resolving a collision on `ruta` may give: the
/// path itself, or one of its candidates with a counter from 2 on.
pub open spec fn resolucion_posible(ruta: Seq<char>, destino: Seq<char>) -> bool {
    destino == ruta || exists|k: int| 2 <= k <= i32::MAX && destino == #[trigger] candidato(ruta, k)
}

/// Builds the name `stem_counter.ext` (the extension with its dot, or empty).
pub fn nombre_alternativo(tallo: &str, contador: i32, extension: &str) -> (r: String)
    ensures
        r@ == nombre_alternativo_spec(tallo@, contador as int, extension@),
{
    let mut s = String::new();
    s.append(tallo);
    proof { reveal_strlit("_"); }
    s.append("_");
    let numero = entero_a_texto(contador);
    s.append(numero.as_str());
    s.append(extension);
    s
}

/// The path tried for a taken path with a given counter.
pub fn candidato_colision(ruta: &str, contador: i32) -> (r: String)
    ensures
        r@ == candidato(ruta@, contador as int),
{
    let tallo = match tallo_de(ruta) {
        Some(t) => t,
        None => String::new(),
    };
    let punto_ext = match extension_de(ruta) {
        Some(e) => {
            let mut s = String::new();
            proof { reveal_strlit("."); }
            s.append(".");
            s.append(e.as_str());
            assert(s@ =~= seq!['.'] + e@);
            s
        },
        None => String::new(),
    };
    let padre = match padre_de(ruta) {
        Some(p) => p,
        None => String::new(),
    };
    assert(tallo@ == tallo_o_vacio(ruta@));
    assert(punto_ext@ == punto_extension(ruta@));
    assert(padre@ == padre_o_vacio(ruta@));
    let nombre = nombre_alternativo(tallo.as_str(), contador, punto_ext.as_str());
    unir(padre.as_str(), nombre.as_str())
}

/// The position of the first `false` in `ocupados` from position `i` on.
pub open spec fn primer_libre(ocupados: Seq<bool>, i: nat) -> Option<nat>
    decreases ocupados.len() - i,
{
    if i >= ocupados.len() {
        None
    } else if !ocupados[i as int] {
        Some(i)
    } else {
        primer_libre(ocupados, i + 1)
    }
}

/// The path chosen for a file about to be moved to `ruta`, given in order
/// whether `ruta` is taken and then whether each of its candidates with
/// counters 2, 3, ... is taken (`ocupados[i]` answers for counter `i + 1`):
/// `ruta` when it is free, else the candidate with the least counter that is
/// free; `None` when every answer says taken.
pub open spec fn destino_elegido(ruta: Seq<char>, ocupados: Seq<bool>) -> Option<Seq<char>> {
    match primer_libre(ocupados, 0) {
        Some(i) => if i == 0 {
            Some(ruta)
        } else {
            Some(candidato(ruta, (i + 1) as int))
        },
        None => None,
    }
}

/// The path resolving a collision on `ruta` gives for the answers
/// `ocupados`: the chosen one, or the candidate with counter `i32::MAX`
/// when every answer says taken.
pub open spec fn destino_resuelto(ruta: Seq<char>, ocupados: Seq<bool>) -> Seq<char> {
    match destino_elegido(ruta, ocupados) {
        Some(d) => d,
        None => candidato(ruta, i32::MAX as int),
    }
}

/// Whether `destino` is what resolving a collision on `ruta` gives for some
/// answers of the file system (at least one, at most one per counter).
pub open spec fn resuelto_con_respuestas(ruta: Seq<char>, destino: Seq<char>) -> bool {
    exists|ocupados: Seq<bool>|
        1 <= ocupados.len() <= i32::MAX && #[trigger] destino_resuelto(ruta, ocupados) == destino
}

proof fn primer_libre_en_rango(ocupados: Seq<bool>, i: nat)
    ensures
        primer_libre(ocupados, i) matches Some(k) ==> i <= k < ocupados.len() && !ocupados[k as int]
            && forall|j: int| i <= j < k ==> ocupados[j],
    decreases ocupados.len() - i,
{
    if i < ocupados.len() && ocupados[i as int] {
        primer_libre_en_rango(ocupados, i + 1);
    }
}

/// What collision resolution gives, for any answers, is the path itself or
/// one of its candidates.
pub proof fn resuelto_es_posible(ruta: Seq<char>, ocupados: Seq<bool>)
    requires
        ocupados.len() <= i32::MAX,
    ensures
        resolucion_posible(ruta, destino_resuelto(ruta, ocupados)),
{
    primer_libre_en_rango(ocupados, 0);
    match primer_libre(ocupados, 0) {
        Some(i) => {
            if i != 0 {
                assert(candidato(ruta, (i + 1) as int) == candidato(ruta, (i + 1) as int));
            }
        },
        None => {
            assert(candidato(ruta, i32::MAX as int) == candidato(ruta, i32::MAX as int));
        },
    }
}

/// The first free answer decides: the path itself when the first answer is
/// free, else the candidate with the least counter whose answer is free.
pub proof fn destino_elegido_es_el_primero_libre(ruta: Seq<char>, ocupados: Seq<bool>, i: int)
    requires
        0 <= i < ocupados.len(),
        !ocupados[i],
        forall|j: int| 0 <= j < i ==> ocupados[j],
    ensures
        destino_elegido(ruta, ocupados) == if i == 0 {
            Some(ruta)
        } else {
            Some(candidato(ruta, (i + 1) as int))
        },
{
    primer_libre_en_rango(ocupados, 0);
    match primer_libre(ocupados, 0) {
        Some(k) => {
            if k < i {
            } else if k > i {
                assert(ocupados[i]);
            }
        },
        None => {
            primer_libre_todos(ocupados, 0, i);
        },
    }
}

proof fn primer_libre_todos(ocupados: Seq<bool>, k: nat, i: int)
    requires
        k <= i < ocupados.len(),
        !ocupados[i],
    ensures
        primer_libre(ocupados, k) is Some,
    decreases i - k,
{
    if ocupados[k as int] {
        primer_libre_todos(ocupados, k + 1, i);
    }
}

/// Picks where a file about to be moved to `ruta` goes, given whether `ruta`
/// is taken and then whether each candidate with counters 2, 3, ... is taken
/// (`ocupados[i]` answers for counter `i + 1`): `ruta` when free, else the
/// free candidate with the least counter; `None` when all are taken.
pub fn elegir_destino(ruta: &str, ocupados: &Vec<bool>) -> (r: Option<String>)
    requires
        ocupados@.len() <= i32::MAX,
    ensures
        r is None <==> destino_elegido(ruta@, ocupados@) is None,
        r matches Some(d) ==> destino_elegido(ruta@, ocupados@) == Some(d@),
{
    let n = ocupados.len();
    let mut i: usize = 0;
    while i < n
        invariant
            n == ocupados@.len(),
            n <= i32::MAX,
            i <= n,
            primer_libre(ocupados@, 0) == primer_libre(ocupados@, i as nat),
        decreases n - i,
    {
        if !ocupados[i] {
            if i == 0 {
                return Some(String::from_str(ruta));
            } else {
                return Some(candidato_colision(ruta, (i + 1) as i32));
            }
        }
        i = i + 1;
    }
    None
}

/// Whether the probe `existe`, asked about a path with text `ruta`, may have
/// answered `b`.
pub open spec fn respondio<F: Fn(&str) -> bool>(existe: F, ruta: Seq<char>, b: bool) -> bool {
    exists|q: &str| q@ == ruta && #[trigger] call_ensures(existe, (q,), b)
}

/// Whether `ocupados` are answers of the probe `existe` asked in order about
/// `ruta` and then about its candidates with counters 2, 3, ... (the answer
/// at position `i` about counter `i + 1`), asking on only while the answer
/// was "taken", and stopping only at a "free" answer or after asking about
/// counter `i32::MAX`.
pub open spec fn respuestas_de<F: Fn(&str) -> bool>(
    existe: F,
    ruta: Seq<char>,
    ocupados: Seq<bool>,
) -> bool {
    &&& ocupados.len() >= 1
    &&& respondio(existe, ruta, ocupados[0])
    &&& forall|i: int|
        1 <= i < ocupados.len() ==> respondio(existe, candidato(ruta, i + 1), #[trigger] ocupados[i])
    &&& forall|i: int| 0 <= i < ocupados.len() - 1 ==> #[trigger] ocupados[i]
    &&& ocupados[ocupados.len() - 1] ==> ocupados.len() == i32::MAX
}

/// Whether `destino` is what resolving a collision on `ruta` gives for
/// answers that the probe `existe` gave when asked in order (see
/// `respuestas_de`).
pub open spec fn resuelto_por<F: Fn(&str) -> bool>(
    existe: F,
    ruta: Seq<char>,
    destino: Seq<char>,
) -> bool {
    exists|ocupados: Seq<bool>|
        {
            &&& ocupados.len() <= i32::MAX
            &&& respuestas_de(existe, ruta, ocupados)
            &&& #[trigger] destino_resuelto(ruta, ocupados) == destino
        }
}

/// Resolves a collision on `path` with the probe `existe`, which tells
/// whether something exists at a path: asks about `path`, then about each
/// candidate `stem_2.ext`, `stem_3.ext`, ... in turn until one is free, and
/// returns what `elegir_destino` picks for those answers (the candidate with
/// `i32::MAX` when every counter up to it is taken).
pub fn resolver_colision_con<F: Fn(&str) -> bool>(path: String, existe: &F) -> (r: String)
    requires
        forall|q: &str| #[trigger] call_requires(*existe, (q,)),
    ensures
        resuelto_por(*existe, path@, r@),
        resuelto_con_respuestas(path@, r@),
        resolucion_posible(path@, r@),
{
    let mut ocupados: Vec<bool> = Vec::new();
    let primera = existe(path.as_str());
    ocupados.push(primera);
    assert(respondio(*existe, path@, ocupados@[0]));
    let mut contador: i32 = 2;
    loop
        invariant_except_break
            2 <= contador <= i32::MAX,
            ocupados@.len() == contador - 1,
            forall|q: &str| #[trigger] call_requires(*existe, (q,)),
            respondio(*existe, path@, ocupados@[0]),
            forall|i: int|
                1 <= i < ocupados@.len() ==> respondio(
                    *existe,
                    candidato(path@, i + 1),
                    #[trigger] ocupados@[i],
                ),
            forall|i: int| 0 <= i < ocupados@.len() - 1 ==> #[trigger] ocupados@[i],
        ensures
            1 <= ocupados@.len() <= i32::MAX,
            respuestas_de(*existe, path@, ocupados@),
            ocupados@[ocupados@.len() - 1] ==> ocupados@.len() == i32::MAX,
        decreases i32::MAX - contador,
    {
        if !ocupados[ocupados.len() - 1] {
            break;
        }
        let nueva = candidato_colision(path.as_str(), contador);
        let ghost antes = ocupados@;
        let b = existe(nueva.as_str());
        ocupados.push(b);
        assert(respondio(*existe, candidato(path@, contador as int), b));
        assert forall|i: int| 1 <= i < ocupados@.len() implies respondio(
            *existe,
            candidato(path@, i + 1),
            #[trigger] ocupados@[i],
        ) by {
            if i < antes.len() {
                assert(ocupados@[i] == antes[i]);
            }
        }
        if contador == i32::MAX {
            break;
        }
        contador = contador + 1;
    }
    let r = match elegir_destino(path.as_str(), &ocupados) {
        Some(d) => d,
        None => candidato_colision(path.as_str(), i32::MAX),
    };
    proof {
        resuelto_es_posible(path@, ocupados@);
        assert(destino_resuelto(path@, ocupados@) == r@);
    }
    r
}

/// A free path for a file about to be moved to `path`: `path` itself when
/// nothing exists there, else the first of `stem_2.ext`, `stem_3.ext`, ... in
/// the same folder at which nothing exists: `resolver_colision_con` with
/// the file system (`std::path::Path::exists`) as the probe. Should every
/// counter up to `i32::MAX` be taken, the candidate with `i32::MAX` is
/// returned.
pub fn resolver_colision(path: String) -> (r: String)
    ensures
        resuelto_con_respuestas(path@, r@),
        resolucion_posible(path@, r@),
{
    resolver_colision_con(path, &|q: &str| existe(q))
}

proof fn primer_libre_ninguno(ocupados: Seq<bool>, k: nat)
    requires
        forall|i: int| 0 <= i < ocupados.len() ==> #[trigger] ocupados[i],
    ensures
        primer_libre(ocupados, k) is None,
    decreases ocupados.len() - k,
{
    if k < ocupados.len() {
        assert(ocupados[k as int]);
        primer_libre_ninguno(ocupados, k + 1);
    }
}

/// What collision resolution gives for the answers the probe gave: the path
/// itself when the path was free; else the candidate with the least counter
/// whose answer was "free", every smaller counter having been "taken"; and
/// the candidate with counter `i32::MAX` only when the path and every
/// counter from 2 to `i32::MAX` were "taken".
pub proof fn resolucion_es_primer_libre<F: Fn(&str) -> bool>(
    existe: F,
    ruta: Seq<char>,
    ocupados: Seq<bool>,
)
    requires
        ocupados.len() <= i32::MAX,
        respuestas_de(existe, ruta, ocupados),
    ensures
        !ocupados[0] ==> destino_resuelto(ruta, ocupados) == ruta,
        forall|k: int|
            2 <= k <= ocupados.len() && !ocupados[k - 1] ==> destino_resuelto(ruta, ocupados)
                == candidato(ruta, k) && respondio(existe, ruta, true) && forall|j: int|
                2 <= j < k ==> respondio(existe, candidato(ruta, j), true),
        (forall|i: int| 0 <= i < ocupados.len() ==> #[trigger] ocupados[i]) ==> {
            &&& ocupados.len() == i32::MAX
            &&& destino_resuelto(ruta, ocupados) == candidato(ruta, i32::MAX as int)
            &&& respondio(existe, ruta, true)
            &&& forall|j: int| 2 <= j <= i32::MAX ==> respondio(existe, candidato(ruta, j), true)
        },
{
    let n = ocupados.len() as int;
    if !ocupados[0] {
        destino_elegido_es_el_primero_libre(ruta, ocupados, 0);
    }
    assert forall|k: int|
        2 <= k <= ocupados.len() && !ocupados[k - 1] implies destino_resuelto(ruta, ocupados)
        == candidato(ruta, k) && respondio(existe, ruta, true) && forall|j: int|
        2 <= j < k ==> respondio(existe, candidato(ruta, j), true) by {
        assert(k - 1 == n - 1);
        assert forall|j: int| 0 <= j < k - 1 implies ocupados[j] by {}
        destino_elegido_es_el_primero_libre(ruta, ocupados, k - 1);
        assert(ocupados[0]);
        assert forall|j: int| 2 <= j < k implies respondio(existe, candidato(ruta, j), true) by {
            assert(ocupados[j - 1]);
            assert(respondio(existe, candidato(ruta, (j - 1) + 1), ocupados[j - 1]));
        }
    }
    if forall|i: int| 0 <= i < ocupados.len() ==> #[trigger] ocupados[i] {
        assert(ocupados[n - 1]);
        assert(ocupados[0]);
        primer_libre_ninguno(ocupados, 0);
        assert forall|j: int| 2 <= j <= i32::MAX implies respondio(existe, candidato(ruta, j), true) by {
            assert(ocupados[j - 1]);
            assert(respondio(existe, candidato(ruta, (j - 1) + 1), ocupados[j - 1]));
        }
    }
}

/// Different counters give different names: resolving a collision never
/// tries the same name twice.
pub proof fn nombres_alternativos_distintos(tallo: Seq<char>, a: int, b: int, extension: Seq<char>)
    requires
        a != b,
    ensures
        nombre_alternativo_spec(tallo, a, extension) != nombre_alternativo_spec(tallo, b, extension),
{
    let na = nombre_alternativo_spec(tallo, a, extension);
    let nb = nombre_alternativo_spec(tallo, b, extension);
    if na == nb {
        let inicio = tallo.len() + 1;
        assert(na.subrange(inicio as int, na.len() - extension.len()) =~= decimal(a));
        assert(nb.subrange(inicio as int, nb.len() - extension.len()) =~= decimal(b));
        decimal_inyectivo(a, b);
    }
}

} // verus!
