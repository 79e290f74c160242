//! Dates in file names: reading the date of a timestamp with `chrono`, and
//! the names of the month and day folders.

use vstd::prelude::*;

use vstd::utf8::{decode_utf8, encode_utf8, encode_utf8_decode_utf8, is_char_boundary};

use crate::texto::{decimal, entero_a_texto};

verus! {

/// The date that `chrono::NaiveDate::parse_from_str` reads from `texto` with
/// the format `formato`, as (year, month, day); `None` when it rejects them.
pub uninterp spec fn fecha_chrono(texto: Seq<char>, formato: Seq<char>) -> Option<(i32, u32, u32)>;

/// Whether a year of the proleptic Gregorian calendar is a leap year.
pub open spec fn es_bisiesto(anio: int) -> bool {
    anio % 4 == 0 && (anio % 100 != 0 || anio % 400 == 0)
}

/// The number of days of a month (1..=12) of a year.
pub open spec fn dias_del_mes(anio: int, mes: int) -> int {
    if mes == 2 {
        if es_bisiesto(anio) {
            29
        } else {
            28
        }
    } else if mes == 4 || mes == 6 || mes == 9 || mes == 11 {
        30
    } else {
        31
    }
}

/// Whether (year, month, day) is a date of the proleptic Gregorian calendar.
pub open spec fn fecha_real(anio: i32, mes: u32, dia: u32) -> bool {
    1 <= mes <= 12 && 1 <= dia <= dias_del_mes(anio as int, mes as int)
}

/// Parses a date with `chrono::NaiveDate::parse_from_str` and takes its year,
/// month and day (`chrono::Datelike`). Trusted: the result is the name
/// `fecha_chrono` of the text and the format, and it is a real date of the
/// proleptic Gregorian calendar, as chrono documents for `NaiveDate` (every
/// value is such a date; `Datelike::month` lies in 1..=12 and
/// `Datelike::day` in 1..=31).
#[verifier::external_body]
fn leer_fecha(texto: &str, formato: &str) -> (r: Option<(i32, u32, u32)>)
    ensures
        r == fecha_chrono(texto@, formato@),
        r matches Some((y, m, d)) ==> fecha_real(y, m, d),
{
    match chrono::NaiveDate::parse_from_str(texto, formato) {
        Ok(f) => Some(
            (chrono::Datelike::year(&f), chrono::Datelike::month(&f), chrono::Datelike::day(&f)),
        ),
        Err(_) => None,
    }
}

/// The format of the date at the start of a timestamp: year, month, day.
pub open spec fn formato_fecha() -> Seq<char> {
    "%Y%m%d"@
}

/// Whether cutting the UTF-8 encoding of `marca` after its eighth byte splits
/// no character (true as well when the encoding is shorter than eight bytes).
pub open spec fn corte_en_ocho(marca: Seq<char>) -> bool {
    encode_utf8(marca).len() >= 8 ==> is_char_boundary(encode_utf8(marca), 8)
}

/// The characters of the first eight bytes of the UTF-8 encoding of `marca`.
pub open spec fn ocho_bytes(marca: Seq<char>) -> Seq<char> {
    decode_utf8(encode_utf8(marca).subrange(0, 8))
}

/// The date of a timestamp: chrono's reading of its first eight bytes as
/// year, month and day; `None` when it is shorter than eight bytes.
pub open spec fn fecha_de_marca(marca: Seq<char>) -> Option<(i32, u32, u32)> {
    if encode_utf8(marca).len() >= 8 {
        fecha_chrono(ocho_bytes(marca), formato_fecha())
    } else {
        None
    }
}

/// Reads the date (year, month, day) in the first eight bytes of a
/// timestamp such as "20260705143000". The cut after the eighth byte must not
/// split a character.
pub fn parse_fecha(timestamp_str: &str) -> (r: Option<(i32, u32, u32)>)
    requires
        corte_en_ocho(timestamp_str@),
    ensures
        r == fecha_de_marca(timestamp_str@),
        r matches Some((y, m, d)) ==> fecha_real(y, m, d),
{
    let bytes = timestamp_str.as_bytes();
    if bytes.len() >= 8 {
        let (date_str, _) = timestamp_str.split_at(8);
        proof {
            encode_utf8_decode_utf8(date_str@);
            assert(date_str@ == ocho_bytes(timestamp_str@));
        }
        leer_fecha(date_str, "%Y%m%d")
    } else {
        None
    }
}

/// The month names, January first.
pub open spec fn nombres_meses() -> Seq<Seq<char>> {
    seq![
        "Enero"@,
        "Febrero"@,
        "Marzo"@,
        "Abril"@,
        "Mayo"@,
        "Junio"@,
        "Julio"@,
        "Agosto"@,
        "Septiembre"@,
        "Octubre"@,
        "Noviembre"@,
        "Diciembre"@,
    ]
}

/// The position of a month number in `nombres_meses`: the number less one,
/// kept within 0..=11 (0 goes to January, anything above 12 to December).
pub open spec fn indice_mes(mes: u32) -> int {
    if mes == 0 {
        0
    } else if mes > 12 {
        11
    } else {
        mes - 1
    }
}

/// The name of the folder of a month: month name, a space, the year.
pub open spec fn carpeta_mes(anio: i32, mes: u32) -> Seq<char> {
    nombres_meses()[indice_mes(mes)] + seq![' '] + decimal(anio as int)
}

/// The name of a month at a position of `nombres_meses`.
fn nombre_mes(i: usize) -> (r: &'static str)
    requires
        i < 12,
    ensures
        r@ == nombres_meses()[i as int],
{
    if i == 0 {
        "Enero"
    } else if i == 1 {
        "Febrero"
    } else if i == 2 {
        "Marzo"
    } else if i == 3 {
        "Abril"
    } else if i == 4 {
        "Mayo"
    } else if i == 5 {
        "Junio"
    } else if i == 6 {
        "Julio"
    } else if i == 7 {
        "Agosto"
    } else if i == 8 {
        "Septiembre"
    } else if i == 9 {
        "Octubre"
    } else if i == 10 {
        "Noviembre"
    } else {
        "Diciembre"
    }
}

/// The folder name of a month of a year, such as "Julio 2026". A month number
/// outside 1..=12 is taken as January when 0 and as December when larger.
pub fn nombre_carpeta_mes(anio: i32, mes: u32) -> (r: String)
    ensures
        r@ == carpeta_mes(anio, mes),
{
    let anterior: usize = if mes == 0 {
        0
    } else {
        (mes - 1) as usize
    };
    let idx: usize = if anterior < 11 {
        anterior
    } else {
        11
    };
    let mut s = String::new();
    s.append(nombre_mes(idx));
    proof { reveal_strlit(" "); }
    s.append(" ");
    let texto_anio = entero_a_texto(anio);
    s.append(texto_anio.as_str());
    s
}

/// Each month number from 1 to 12 gets the name of that month of the year
/// in Spanish, in calendar order, followed by a space and the year.
pub proof fn nombres_de_cada_mes()
    ensures
        forall|anio: i32| #[trigger] carpeta_mes(anio, 1) == "Enero"@ + seq![' '] + decimal(anio as int),
        forall|anio: i32| #[trigger] carpeta_mes(anio, 2) == "Febrero"@ + seq![' '] + decimal(anio as int),
        forall|anio: i32| #[trigger] carpeta_mes(anio, 3) == "Marzo"@ + seq![' '] + decimal(anio as int),
        forall|anio: i32| #[trigger] carpeta_mes(anio, 4) == "Abril"@ + seq![' '] + decimal(anio as int),
        forall|anio: i32| #[trigger] carpeta_mes(anio, 5) == "Mayo"@ + seq![' '] + decimal(anio as int),
        forall|anio: i32| #[trigger] carpeta_mes(anio, 6) == "Junio"@ + seq![' '] + decimal(anio as int),
        forall|anio: i32| #[trigger] carpeta_mes(anio, 7) == "Julio"@ + seq![' '] + decimal(anio as int),
        forall|anio: i32| #[trigger] carpeta_mes(anio, 8) == "Agosto"@ + seq![' '] + decimal(anio as int),
        forall|anio: i32| #[trigger] carpeta_mes(anio, 9) == "Septiembre"@ + seq![' '] + decimal(anio as int),
        forall|anio: i32| #[trigger] carpeta_mes(anio, 10) == "Octubre"@ + seq![' '] + decimal(anio as int),
        forall|anio: i32| #[trigger] carpeta_mes(anio, 11) == "Noviembre"@ + seq![' '] + decimal(anio as int),
        forall|anio: i32| #[trigger] carpeta_mes(anio, 12) == "Diciembre"@ + seq![' '] + decimal(anio as int),
        forall|anio: i32| #[trigger] carpeta_mes(anio, 0) == carpeta_mes(anio, 1),
        forall|anio: i32, mes: u32| mes > 12 ==> #[trigger] carpeta_mes(anio, mes) == carpeta_mes(anio, 12),
{
}

} // verus!
