//! Planning the organization of a folder: where each file goes (category,
//! and for dated PDFs month and day), and the list of moves for the files
//! found in the folder.

use vstd::prelude::*;

use crate::clasificador::{
    carpetas_gestionadas, categoria_extension, categoria_extension_es_gestionada,
    categoria_pdf_es_gestionada, coincidencias_pdf, categoria_pdf, determinar_categoria_extension,
    determinar_categoria_pdf, reglas_pdf_compilan, reglas_pdf_validas,
};
use crate::expresiones::{compila_regex, grupo_regex, regex_grupo, regex_valida};
use crate::fechas::{carpeta_mes, corte_en_ocho, fecha_de_marca, nombre_carpeta_mes, parse_fecha};
use crate::rutas::{
    extension_de, extension_ruta, misma_ruta, nombre_de, nombre_ruta, resolucion_posible,
    resolver_colision_con, resuelto_por, rutas_iguales, unir, unir_rutas,
};
use crate::texto::{dos_cifras, dos_cifras_son_dos, mismo_texto, numero_dos_cifras};

verus! {

/// What `str::to_lowercase` makes of a text.
pub uninterp spec fn minusculas(texto: Seq<char>) -> Seq<char>;

/// `str::to_lowercase`. Trusted: the result is the name `minusculas` of the text.
#[verifier::external_body]
fn a_minusculas(texto: &str) -> (r: String)
    ensures
        r@ == minusculas(texto@),
{
    texto.to_lowercase()
}

/// The pattern of a timestamp at the start of a file name: fourteen digits
/// (captured), an optional underscore, then the rest of the name.
pub open spec fn patron_fecha() -> Seq<char> {
    r"^(\d{14})_?(.+)$"@
}

/// The extension that marks a PDF.
pub open spec fn sufijo_pdf() -> Seq<char> {
    ".pdf"@
}

/// The folders, below the category, of the date of a PDF named `nombre`:
/// month and day when its name starts with a timestamp whose date chrono
/// reads, none otherwise.
pub open spec fn carpetas_fecha(nombre: Seq<char>) -> Seq<Seq<char>> {
    match regex_grupo(patron_fecha(), nombre, 1) {
        Some(marca) => match fecha_de_marca(marca) {
            Some((anio, mes, dia)) => seq![carpeta_mes(anio, mes), dos_cifras(dia as nat)],
            None => seq![],
        },
        None => seq![],
    }
}

/// The folders, below the base folder, where a file goes, given its name and
/// its suffix (extension with its dot, in lower case): for a PDF, its
/// category then the folders of its date; for another file, the category of
/// its extension; `None` for a file that no category takes.
pub open spec fn carpetas_destino(nombre: Seq<char>, sufijo: Seq<char>) -> Option<Seq<Seq<char>>> {
    if sufijo == sufijo_pdf() {
        Some(seq![categoria_pdf(nombre)] + carpetas_fecha(nombre))
    } else {
        match categoria_extension(sufijo) {
            Some(c) => Some(seq![c]),
            None => None,
        }
    }
}

/// What planning a PDF named `nombre` needs: every pattern compiles, and the
/// cut of its timestamp after eight bytes splits no character.
pub open spec fn planificable(nombre: Seq<char>) -> bool {
    &&& reglas_pdf_validas()
    &&& regex_valida(patron_fecha())
    &&& regex_grupo(patron_fecha(), nombre, 1) matches Some(marca) ==> corte_en_ocho(marca)
}

/// Why the destination of a file could not be planned.
#[derive(Debug, Clone, Copy, PartialEq, Eq, Structural)]
pub enum ErrorPlan {
    /// A pattern of the rules does not compile.
    PatronInvalido,
    /// The timestamp of the name cannot be cut after its eighth byte without
    /// splitting a character.
    FechaPartida,
}

/// The error that planning a file gives, if any: only a PDF can fail.
pub open spec fn error_de_plan(nombre: Seq<char>, sufijo: Seq<char>) -> Option<ErrorPlan> {
    if sufijo != sufijo_pdf() {
        None
    } else if !reglas_pdf_validas() || !regex_valida(patron_fecha()) {
        Some(ErrorPlan::PatronInvalido)
    } else if !planificable(nombre) {
        Some(ErrorPlan::FechaPartida)
    } else {
        None
    }
}

/// The view of a list of folder names.
pub open spec fn vista_carpetas(v: Seq<String>) -> Seq<Seq<char>> {
    v.map_values(|s: String| s@)
}

/// The text of the timestamp pattern.
fn texto_patron_fecha() -> (r: &'static str)
    ensures
        r@ == patron_fecha(),
{
    r"^(\d{14})_?(.+)$"
}

/// The month and day folders of a PDF named `file_name`.
fn carpetas_de_fecha(file_name: &str) -> (r: Vec<String>)
    requires
        planificable(file_name@),
    ensures
        vista_carpetas(r@) == carpetas_fecha(file_name@),
        r@.len() == 0 || r@.len() == 2,
        r@.len() == 2 ==> r@[1]@.len() == 2,
{
    let mut carpetas: Vec<String> = Vec::new();
    match grupo_regex(texto_patron_fecha(), file_name, 1) {
        Some(marca) => {
            match parse_fecha(marca.as_str()) {
                Some((anio, mes, dia)) => {
                    proof { dos_cifras_son_dos(dia as nat); }
                    carpetas.push(nombre_carpeta_mes(anio, mes));
                    carpetas.push(numero_dos_cifras(dia));
                },
                None => {},
            }
        },
        None => {},
    }
    assert(vista_carpetas(carpetas@) =~= carpetas_fecha(file_name@));
    carpetas
}

/// The folders, below the base folder, where the file named `file_name`
/// goes (`suffix` is its extension with its dot, in lower case): for a PDF
/// its category, then, when its name starts with a timestamp of a valid date,
/// the month folder ("Julio 2026") and the day folder ("05"); for another
/// file the category of its extension; `None` when no category takes it.
/// A PDF must meet `planificable` (`planificar_destino` checks it).
pub fn destino_relativo(file_name: &str, suffix: &str) -> (r: Option<Vec<String>>)
    requires
        suffix@ == sufijo_pdf() ==> planificable(file_name@),
    ensures
        r is None <==> carpetas_destino(file_name@, suffix@) is None,
        r matches Some(v) ==> carpetas_destino(file_name@, suffix@) == Some(vista_carpetas(v@)),
        r matches Some(v) ==> (v@.len() == 1 || v@.len() == 3) && (v@.len() == 3 ==> v@[2]@.len()
            == 2),
{
    if mismo_texto(suffix, ".pdf") {
        let categoria = determinar_categoria_pdf(file_name);
        let mut carpetas: Vec<String> = Vec::new();
        carpetas.push(String::from_str(categoria));
        let fecha = carpetas_de_fecha(file_name);
        let mut j: usize = 0;
        while j < fecha.len()
            invariant
                j <= fecha@.len(),
                vista_carpetas(carpetas@) == seq![categoria_pdf(file_name@)] + vista_carpetas(
                    fecha@,
                ).take(j as int),
            decreases fecha@.len() - j,
        {
            let ghost antes = vista_carpetas(carpetas@);
            let copia = fecha[j].clone();
            carpetas.push(copia);
            assert(vista_carpetas(carpetas@) =~= antes.push(copia@));
            assert(copia@ == vista_carpetas(fecha@)[j as int]);
            assert(vista_carpetas(fecha@).take(j + 1) =~= vista_carpetas(fecha@).take(j as int).push(copia@));
            assert(vista_carpetas(carpetas@) =~= seq![categoria_pdf(file_name@)] + vista_carpetas(
                fecha@,
            ).take(j + 1));
            j = j + 1;
        }
        assert(vista_carpetas(fecha@).take(fecha@.len() as int) =~= vista_carpetas(fecha@));
        assert(carpetas@.len() == vista_carpetas(carpetas@).len());
        assert(fecha@.len() == 2 ==> carpetas@[2]@ == vista_carpetas(carpetas@)[2]);
        Some(carpetas)
    } else {
        match determinar_categoria_extension(suffix) {
            Some(categoria) => {
                let mut carpetas: Vec<String> = Vec::new();
                carpetas.push(String::from_str(categoria));
                assert(vista_carpetas(carpetas@) =~= seq![categoria@]);
                Some(carpetas)
            },
            None => None,
        }
    }
}

/// Whether the PDF named `file_name` meets `planificable`.
pub fn es_planificable(file_name: &str) -> (r: Result<(), ErrorPlan>)
    ensures
        r is Ok <==> planificable(file_name@),
        r matches Err(e) ==> error_de_plan(file_name@, sufijo_pdf()) == Some(e),
{
    if !reglas_pdf_compilan() || !compila_regex(texto_patron_fecha()) {
        return Err(ErrorPlan::PatronInvalido);
    }
    match grupo_regex(texto_patron_fecha(), file_name, 1) {
        Some(marca) => {
            let bytes = marca.as_str().as_bytes();
            if bytes.len() >= 8 && !marca.as_str().is_char_boundary(8) {
                return Err(ErrorPlan::FechaPartida);
            }
        },
        None => {},
    }
    Ok(())
}

/// Plans where a file goes, as `destino_relativo`, after checking what a PDF
/// needs: `Err` with the reason when that fails.
pub fn planificar_destino(file_name: &str, suffix: &str) -> (r: Result<Option<Vec<String>>, ErrorPlan>)
    ensures
        r is Err <==> error_de_plan(file_name@, suffix@) is Some,
        r matches Err(e) ==> error_de_plan(file_name@, suffix@) == Some(e),
        r matches Ok(o) ==> {
            &&& o is None <==> carpetas_destino(file_name@, suffix@) is None
            &&& o matches Some(v) ==> carpetas_destino(file_name@, suffix@) == Some(vista_carpetas(v@))
        },
{
    if mismo_texto(suffix, ".pdf") {
        match es_planificable(file_name) {
            Ok(()) => {},
            Err(e) => {
                return Err(e);
            },
        }
    }
    Ok(destino_relativo(file_name, suffix))
}

/// An entry of the folder being organized: its path, and whether it is a
/// regular file.
pub struct Entrada {
    pub ruta: String,
    pub es_archivo: bool,
}

/// The view of an optional path.
pub open spec fn vista_opcional(ruta: Option<&str>) -> Option<Seq<char>> {
    match ruta {
        Some(r) => Some(r@),
        None => None,
    }
}

/// The suffix a path is classified by: its extension in lower case with a
/// leading dot, or empty when it has none.
pub open spec fn sufijo_de(ruta: Seq<char>) -> Seq<char> {
    match extension_ruta(ruta) {
        Some(e) => seq!['.'] + minusculas(e),
        None => seq![],
    }
}

/// Whether an entry is a candidate to be moved: a regular file, other than
/// the running program, with a file name.
pub open spec fn se_organiza(ruta: Seq<char>, es_archivo: bool, ejecutable: Option<Seq<char>>) -> bool {
    &&& es_archivo
    &&& !(ejecutable matches Some(x) && rutas_iguales(ruta, x))
    &&& nombre_ruta(ruta) is Some
}

/// The path made by joining the parts one after the other onto `base`.
pub open spec fn unir_todas(base: Seq<char>, partes: Seq<Seq<char>>) -> Seq<char>
    decreases partes.len(),
{
    if partes.len() == 0 {
        base
    } else {
        unir_rutas(unir_todas(base, partes.drop_last()), partes.last())
    }
}

/// Where an entry would go if nothing were in the way: the folders of its
/// destination below `base`, then its file name; `None` when it stays.
pub open spec fn destino_ideal(
    base: Seq<char>,
    ruta: Seq<char>,
    es_archivo: bool,
    ejecutable: Option<Seq<char>>,
) -> Option<Seq<char>> {
    if se_organiza(ruta, es_archivo, ejecutable) {
        let nombre = nombre_ruta(ruta)->0;
        match carpetas_destino(nombre, sufijo_de(ruta)) {
            Some(carpetas) => Some(unir_rutas(unir_todas(base, carpetas), nombre)),
            None => None,
        }
    } else {
        None
    }
}

/// The error that planning an entry gives, if any.
pub open spec fn error_de_entrada(ruta: Seq<char>, es_archivo: bool, ejecutable: Option<Seq<char>>) -> Option<ErrorPlan> {
    if se_organiza(ruta, es_archivo, ejecutable) {
        error_de_plan(nombre_ruta(ruta)->0, sufijo_de(ruta))
    } else {
        None
    }
}

/// The moves planned for the entries, in their order, each from its path to
/// where it would go if nothing were in the way.
pub open spec fn movimientos_ideales(
    base: Seq<char>,
    entradas: Seq<Entrada>,
    ejecutable: Option<Seq<char>>,
) -> Seq<(Seq<char>, Seq<char>)>
    decreases entradas.len(),
{
    if entradas.len() == 0 {
        seq![]
    } else {
        let previos = movimientos_ideales(base, entradas.drop_last(), ejecutable);
        let e = entradas.last();
        match destino_ideal(base, e.ruta@, e.es_archivo, ejecutable) {
            Some(d) => previos.push((e.ruta@, d)),
            None => previos,
        }
    }
}

/// The suffix a path is classified by: its extension in lower case with a
/// leading dot, or empty.
pub fn sufijo_de_ruta(ruta: &str) -> (r: String)
    ensures
        r@ == sufijo_de(ruta@),
{
    match extension_de(ruta) {
        Some(e) => {
            let mut s = String::new();
            proof { reveal_strlit("."); }
            s.append(".");
            let minus = a_minusculas(e.as_str());
            s.append(minus.as_str());
            assert(s@ =~= seq!['.'] + minusculas(e@));
            s
        },
        None => String::new(),
    }
}

/// Joins the parts one after the other onto `base`.
pub fn unir_partes(base: &str, partes: &Vec<String>) -> (r: String)
    ensures
        r@ == unir_todas(base@, vista_carpetas(partes@)),
{
    let mut ruta = String::from_str(base);
    let mut j: usize = 0;
    while j < partes.len()
        invariant
            j <= partes@.len(),
            ruta@ == unir_todas(base@, vista_carpetas(partes@).take(j as int)),
        decreases partes@.len() - j,
    {
        let siguiente = unir(ruta.as_str(), partes[j].as_str());
        assert(vista_carpetas(partes@).take(j + 1).drop_last() =~= vista_carpetas(partes@).take(
            j as int,
        ));
        ruta = siguiente;
        j = j + 1;
    }
    assert(vista_carpetas(partes@).take(partes@.len() as int) =~= vista_carpetas(partes@));
    ruta
}

/// Plans the move of one entry: `None` when it stays, else its path and the
/// free path it goes to, found by asking the probe `existe` whether paths
/// exist (see `resolver_colision_con`).
pub fn planificar_entrada<F: Fn(&str) -> bool>(
    base_dir: &str,
    entrada: &Entrada,
    ejecutable: Option<&str>,
    existe: &F,
) -> (r: Result<
    Option<(String, String)>,
    ErrorPlan,
>)
    requires
        forall|q: &str| #[trigger] call_requires(*existe, (q,)),
    ensures
        r is Err <==> error_de_entrada(
            entrada.ruta@,
            entrada.es_archivo,
            vista_opcional(ejecutable),
        ) is Some,
        r matches Err(e) ==> error_de_entrada(
            entrada.ruta@,
            entrada.es_archivo,
            vista_opcional(ejecutable),
        ) == Some(e),
        r matches Ok(o) ==> {
            let ideal = destino_ideal(
                base_dir@,
                entrada.ruta@,
                entrada.es_archivo,
                vista_opcional(ejecutable),
            );
            &&& o is None <==> ideal is None
            &&& o matches Some(m) ==> m.0@ == entrada.ruta@ && resuelto_por(
                *existe,
                ideal->0,
                m.1@,
            )
        },
        r matches Ok(Some(m)) ==> (ejecutable matches Some(x) ==> m.0@ != x@),
{
    if !entrada.es_archivo {
        return Ok(None);
    }
    match ejecutable {
        Some(exe) => {
            if misma_ruta(entrada.ruta.as_str(), exe) {
                return Ok(None);
            }
        },
        None => {},
    }
    let nombre = match nombre_de(entrada.ruta.as_str()) {
        Some(n) => n,
        None => {
            return Ok(None);
        },
    };
    let sufijo = sufijo_de_ruta(entrada.ruta.as_str());
    match planificar_destino(nombre.as_str(), sufijo.as_str()) {
        Err(e) => Err(e),
        Ok(None) => Ok(None),
        Ok(Some(carpetas)) => {
            let carpeta = unir_partes(base_dir, &carpetas);
            let ideal = unir(carpeta.as_str(), nombre.as_str());
            let final_dest = resolver_colision_con(ideal, existe);
            Ok(Some((entrada.ruta.clone(), final_dest)))
        },
    }
}

/// Whether the moves `v` carry out the planned `ideales`: same sources in the
/// same order, each destination a possible resolution of the planned one.
pub open spec fn realiza<F: Fn(&str) -> bool>(
    existe: F,
    ideales: Seq<(Seq<char>, Seq<char>)>,
    v: Seq<(String, String)>,
) -> bool {
    &&& v.len() == ideales.len()
    &&& forall|i: int|
        #![trigger v[i]]
        0 <= i < v.len() ==> v[i].0@ == ideales[i].0 && resuelto_por(existe, ideales[i].1, v[i].1@)
}

/// Plans the organization of a folder from its entries (as listed, with
/// whether each is a regular file) and the path of the running program,
/// which stays: for each entry to move, in order, its path and the free path
/// it goes to, found by asking the probe `existe` whether paths exist. `Err`
/// with the reason of the first entry that cannot be planned.
pub fn planificar_movimientos<F: Fn(&str) -> bool>(
    base_dir: &str,
    entradas: &Vec<Entrada>,
    ejecutable: Option<&str>,
    existe: &F,
) -> (r: Result<Vec<(String, String)>, ErrorPlan>)
    requires
        forall|q: &str| #[trigger] call_requires(*existe, (q,)),
    ensures
        r is Ok <==> forall|i: int|
            0 <= i < entradas@.len() ==> (#[trigger] error_de_entrada(
                entradas@[i].ruta@,
                entradas@[i].es_archivo,
                vista_opcional(ejecutable),
            )) is None,
        r matches Err(e) ==> exists|i: int|
            0 <= i < entradas@.len() && #[trigger] error_de_entrada(
                entradas@[i].ruta@,
                entradas@[i].es_archivo,
                vista_opcional(ejecutable),
            ) == Some(e) && forall|k: int|
                0 <= k < i ==> (#[trigger] error_de_entrada(
                    entradas@[k].ruta@,
                    entradas@[k].es_archivo,
                    vista_opcional(ejecutable),
                )) is None,
        r matches Ok(v) ==> realiza(
            *existe,
            movimientos_ideales(base_dir@, entradas@, vista_opcional(ejecutable)),
            v@,
        ),
        r matches Ok(v) ==> (ejecutable matches Some(x) ==> forall|i: int|
            0 <= i < v@.len() ==> #[trigger] v@[i].0@ != x@),
{
    let ghost exe = vista_opcional(ejecutable);
    let mut trabajos: Vec<(String, String)> = Vec::new();
    let mut i: usize = 0;
    while i < entradas.len()
        invariant
            i <= entradas@.len(),
            exe == vista_opcional(ejecutable),
            forall|k: int|
                0 <= k < i ==> (#[trigger] error_de_entrada(
                    entradas@[k].ruta@,
                    entradas@[k].es_archivo,
                    exe,
                )) is None,
            realiza(*existe, movimientos_ideales(base_dir@, entradas@.take(i as int), exe), trabajos@),
            forall|q: &str| #[trigger] call_requires(*existe, (q,)),
            ejecutable matches Some(x) ==> forall|k: int|
                0 <= k < trabajos@.len() ==> #[trigger] trabajos@[k].0@ != x@,
        decreases entradas@.len() - i,
    {
        let ghost previos = movimientos_ideales(base_dir@, entradas@.take(i as int), exe);
        assert(entradas@.take(i + 1).drop_last() =~= entradas@.take(i as int));
        assert(entradas@.take(i + 1).last() == entradas@[i as int]);
        let ghost nuevos = movimientos_ideales(base_dir@, entradas@.take(i + 1), exe);
        let ghost e = entradas@[i as int];
        assert(nuevos == match destino_ideal(base_dir@, e.ruta@, e.es_archivo, exe) {
            Some(d) => previos.push((e.ruta@, d)),
            None => previos,
        });
        let ghost viejos = trabajos@;
        match planificar_entrada(base_dir, &entradas[i], ejecutable, existe) {
            Err(e) => {
                return Err(e);
            },
            Ok(None) => {
                assert(nuevos == previos);
                assert(realiza(*existe, nuevos, trabajos@));
            },
            Ok(Some(m)) => {
                trabajos.push(m);
                let ghost d = destino_ideal(base_dir@, e.ruta@, e.es_archivo, exe)->0;
                assert(nuevos == previos.push((e.ruta@, d)));
                assert forall|k: int| #![trigger trabajos@[k]] 0 <= k < trabajos@.len() implies trabajos@[k].0@ == nuevos[k].0
                    && resuelto_por(*existe, nuevos[k].1, trabajos@[k].1@) by {
                    if k < viejos.len() {
                        assert(trabajos@[k] == viejos[k]);
                        assert(nuevos[k] == previos[k]);
                        assert(resuelto_por(*existe, previos[k].1, viejos[k].1@));
                    } else {
                        assert(trabajos@[k] == m);
                        assert(nuevos[k] == (e.ruta@, d));
                    }
                }
                assert(viejos.len() == previos.len());
                assert(trabajos@.len() == viejos.len() + 1);
                assert(nuevos.len() == previos.len() + 1);
                assert(realiza(*existe, nuevos, trabajos@));
            },
        }
        i = i + 1;
    }
    assert(entradas@.take(entradas@.len() as int) =~= entradas@);
    Ok(trabajos)
}

/// Every file that is organized goes below one of the managed folders: the
/// folders where reverting looks for the files to bring back.
pub proof fn destino_bajo_carpeta_gestionada(nombre: Seq<char>, sufijo: Seq<char>)
    ensures
        carpetas_destino(nombre, sufijo) matches Some(carpetas) ==> carpetas.len() >= 1
            && carpetas_gestionadas().contains(carpetas[0]),
{
    categoria_pdf_es_gestionada(coincidencias_pdf(nombre));
    categoria_extension_es_gestionada(sufijo);
}

/// Where a file found in a managed folder goes back to when reverting: the
/// base folder with the same file name, or the first free alternative name
/// there, asking the probe `existe` whether paths exist (see
/// `resolver_colision_con`).
pub fn destino_de_reversion<F: Fn(&str) -> bool>(
    base_dir: &str,
    nombre_archivo: &str,
    existe: &F,
) -> (r: String)
    requires
        forall|q: &str| #[trigger] call_requires(*existe, (q,)),
    ensures
        resuelto_por(*existe, unir_rutas(base_dir@, nombre_archivo@), r@),
        resolucion_posible(unir_rutas(base_dir@, nombre_archivo@), r@),
{
    resolver_colision_con(unir(base_dir, nombre_archivo), existe)
}

/// Records a folder in the list of affected folders unless it is already
/// there; tells whether it was new.
pub fn registrar_carpeta(registradas: &mut Vec<String>, carpeta: &str) -> (r: bool)
    ensures
        r == !vista_carpetas(old(registradas)@).contains(carpeta@),
        vista_carpetas(final(registradas)@) == if r {
            vista_carpetas(old(registradas)@).push(carpeta@)
        } else {
            vista_carpetas(old(registradas)@)
        },
{
    let n = registradas.len();
    let mut i: usize = 0;
    while i < n
        invariant
            n == registradas@.len(),
            i <= n,
            forall|k: int| 0 <= k < i ==> vista_carpetas(registradas@)[k] != carpeta@,
        decreases n - i,
    {
        if mismo_texto(registradas[i].as_str(), carpeta) {
            assert(vista_carpetas(registradas@)[i as int] == carpeta@);
            return false;
        }
        i = i + 1;
    }
    let ghost antes = vista_carpetas(registradas@);
    registradas.push(String::from_str(carpeta));
    assert(vista_carpetas(registradas@) =~= antes.push(carpeta@));
    true
}

/// The running program only keeps itself in place: for any entry whose path
/// is not the program's, giving the program's path changes nothing of where
/// the entry goes, or of whether planning it fails; the program's own entry
/// stays.
pub proof fn solo_el_programa_se_queda(
    base: Seq<char>,
    ruta: Seq<char>,
    es_archivo: bool,
    ejecutable: Seq<char>,
)
    ensures
        !rutas_iguales(ruta, ejecutable) ==> destino_ideal(base, ruta, es_archivo, Some(ejecutable))
            == destino_ideal(base, ruta, es_archivo, None),
        !rutas_iguales(ruta, ejecutable) ==> error_de_entrada(ruta, es_archivo, Some(ejecutable))
            == error_de_entrada(ruta, es_archivo, None),
        rutas_iguales(ruta, ejecutable) ==> destino_ideal(base, ruta, es_archivo, Some(ejecutable))
            is None,
{
}

/// A regular file with a file name and a destination is planned to go to
/// its destination folders below the base, under its own name.
pub proof fn archivo_va_a_su_carpeta(base: Seq<char>, ruta: Seq<char>)
    ensures
        nombre_ruta(ruta) matches Some(nombre) ==> (carpetas_destino(nombre, sufijo_de(ruta)) matches Some(
            carpetas,
        ) ==> destino_ideal(base, ruta, true, None) == Some(
            unir_rutas(unir_todas(base, carpetas), nombre),
        )),
{
}

} // verus!
