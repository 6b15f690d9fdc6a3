//! Small text operations: decimal numerals, runs of spaces, joining with a
//! separator and cutting a source text into its lines.

use vstd::prelude::*;

verus! {

/// The texts of a sequence of strings.
pub open spec fn vista_cadenas(s: Seq<String>) -> Seq<Seq<char>> {
    s.map_values(|x: String| x@)
}

// ---------------------------------------------------------------------------
// Decimal numerals
// ---------------------------------------------------------------------------

pub open spec fn digito_esp(d: nat) -> Seq<char> {
    if d == 0 {
        "0"@
    } else if d == 1 {
        "1"@
    } else if d == 2 {
        "2"@
    } else if d == 3 {
        "3"@
    } else if d == 4 {
        "4"@
    } else if d == 5 {
        "5"@
    } else if d == 6 {
        "6"@
    } else if d == 7 {
        "7"@
    } else if d == 8 {
        "8"@
    } else {
        "9"@
    }
}

/// The decimal numeral of `n`, without leading zeros.
pub open spec fn decimal_esp(n: nat) -> Seq<char>
    decreases n,
{
    if n < 10 {
        digito_esp(n)
    } else {
        decimal_esp(n / 10) + digito_esp(n % 10)
    }
}

fn digito(d: usize) -> (r: &'static str)
    requires
        d < 10,
    ensures
        r@ == digito_esp(d as nat),
{
    if d == 0 {
        "0"
    } else if d == 1 {
        "1"
    } else if d == 2 {
        "2"
    } else if d == 3 {
        "3"
    } else if d == 4 {
        "4"
    } else if d == 5 {
        "5"
    } else if d == 6 {
        "6"
    } else if d == 7 {
        "7"
    } else if d == 8 {
        "8"
    } else {
        "9"
    }
}

/// Decimal numeral of a number (what `to_string` gives for it).
pub fn decimal(n: usize) -> (r: String)
    ensures
        r@ == decimal_esp(n as nat),
    decreases n,
{
    if n < 10 {
        String::from_str(digito(n))
    } else {
        let mut r = decimal(n / 10);
        r.append(digito(n % 10));
        r
    }
}

// ---------------------------------------------------------------------------
// Runs of spaces
// ---------------------------------------------------------------------------

/// `n` spaces.
pub open spec fn espacios_esp(n: nat) -> Seq<char>
    decreases n,
{
    if n == 0 {
        Seq::empty()
    } else {
        espacios_esp((n - 1) as nat) + " "@
    }
}

/// `n` spaces are `n` characters, each a space.
pub proof fn lema_espacios(n: nat)
    ensures
        espacios_esp(n).len() == n,
        forall|i: int| 0 <= i < n ==> #[trigger] espacios_esp(n)[i] == ' ',
    decreases n,
{
    reveal_strlit(" ");
    if n > 0 {
        lema_espacios((n - 1) as nat);
    }
}

/// A text of `n` spaces (what `" ".repeat(n)` gives).
pub fn espacios(n: usize) -> (r: String)
    ensures
        r@ == espacios_esp(n as nat),
{
    let mut r = String::new();
    let mut i: usize = 0;
    while i < n
        invariant
            i <= n,
            r@ == espacios_esp(i as nat),
        decreases n - i,
    {
        r.append(" ");
        i = i + 1;
    }
    r
}

// ---------------------------------------------------------------------------
// Joining
// ---------------------------------------------------------------------------

/// The parts, in order, with `sep` between each two neighbours.
pub open spec fn unir_esp(partes: Seq<Seq<char>>, sep: Seq<char>) -> Seq<char>
    decreases partes.len(),
{
    if partes.len() == 0 {
        Seq::empty()
    } else if partes.len() == 1 {
        partes[0]
    } else {
        unir_esp(partes.drop_last(), sep) + sep + partes.last()
    }
}

/// Joining two non-empty lists of parts one after the other puts the
/// separator once between the two joined texts.
pub proof fn lema_unir_concat(a: Seq<Seq<char>>, b: Seq<Seq<char>>, sep: Seq<char>)
    requires
        a.len() > 0,
        b.len() > 0,
    ensures
        unir_esp(a + b, sep) == unir_esp(a, sep) + sep + unir_esp(b, sep),
    decreases b.len(),
{
    if b.len() == 1 {
        assert((a + b).drop_last() =~= a);
        assert((a + b).last() == b[0]);
    } else {
        lema_unir_concat(a, b.drop_last(), sep);
        assert((a + b).drop_last() =~= a + b.drop_last());
        assert((a + b).last() == b.last());
        assert(unir_esp(a + b, sep) =~= unir_esp(a, sep) + sep + unir_esp(b, sep));
    }
}

/// Joins the parts with a separator (what `partes.join(sep)` gives).
pub fn unir(partes: &Vec<String>, sep: &str) -> (r: String)
    ensures
        r@ == unir_esp(vista_cadenas(partes@), sep@),
{
    let mut r = String::new();
    let mut i: usize = 0;
    while i < partes.len()
        invariant
            i <= partes.len(),
            r@ == unir_esp(vista_cadenas(partes@).take(i as int), sep@),
        decreases partes.len() - i,
    {
        let ghost antes = vista_cadenas(partes@).take(i as int);
        if i > 0 {
            r.append(sep);
        }
        r.append(partes[i].as_str());
        i = i + 1;
        proof {
            let ahora = vista_cadenas(partes@).take(i as int);
            assert(ahora.drop_last() =~= antes);
            assert(ahora.last() == partes@[i - 1]@);
            if i == 1 {
                assert(antes.len() == 0);
            }
        }
    }
    proof {
        assert(vista_cadenas(partes@).take(i as int) =~= vista_cadenas(partes@));
    }
    r
}

// ---------------------------------------------------------------------------
// Lines of a text
// ---------------------------------------------------------------------------

/// A line without the carriage return that ends it, if one does.
pub open spec fn sin_retorno(l: Seq<char>) -> Seq<char> {
    if l.len() > 0 && l.last() == '\r' {
        l.drop_last()
    } else {
        l
    }
}

/// The lines of `s[inicio..]`, given that `s[inicio..i]` holds no line feed.
pub open spec fn lineas_desde(s: Seq<char>, inicio: int, i: int) -> Seq<Seq<char>>
    decreases s.len() - i,
{
    if i >= s.len() {
        if inicio < s.len() {
            seq![s.subrange(inicio, s.len() as int)]
        } else {
            Seq::empty()
        }
    } else if s[i] == '\n' {
        seq![sin_retorno(s.subrange(inicio, i))] + lineas_desde(s, i + 1, i + 1)
    } else {
        lineas_desde(s, inicio, i + 1)
    }
}

/// The lines of a text, as `str::lines` cuts them: at each line feed, with a
/// carriage return just before it dropped, and with no empty line after a
/// final line feed.
pub open spec fn lineas_esp(s: Seq<char>) -> Seq<Seq<char>> {
    lineas_desde(s, 0, 0)
}

/// Cuts a source text into its lines.
pub fn dividir_lineas(fuente: &str) -> (r: Vec<String>)
    ensures
        vista_cadenas(r@) == lineas_esp(fuente@),
{
    let n = fuente.unicode_len();
    let mut r: Vec<String> = Vec::new();
    let mut inicio: usize = 0;
    let mut i: usize = 0;
    while i < n
        invariant
            n == fuente@.len(),
            inicio <= i <= n,
            vista_cadenas(r@) + lineas_desde(fuente@, inicio as int, i as int) == lineas_esp(
                fuente@,
            ),
        decreases n - i,
    {
        let ch = fuente.get_char(i);
        if ch == '\n' {
            let mut fin = i;
            if fin > inicio && fuente.get_char(fin - 1) == '\r' {
                fin = fin - 1;
            }
            let linea = String::from_str(fuente.substring_char(inicio, fin));
            let ghost antes = vista_cadenas(r@);
            r.push(linea);
            proof {
                let l = fuente@.subrange(inicio as int, i as int);
                if i > inicio && fuente@[i - 1] == '\r' {
                    assert(l.drop_last() =~= fuente@.subrange(inicio as int, fin as int));
                } else {
                    assert(l =~= fuente@.subrange(inicio as int, fin as int));
                }
                assert(vista_cadenas(r@) =~= antes.push(sin_retorno(l)));
                assert(antes + lineas_desde(fuente@, inicio as int, i as int) =~= vista_cadenas(r@)
                    + lineas_desde(fuente@, i + 1, i + 1));
            }
            i = i + 1;
            inicio = i;
        } else {
            i = i + 1;
        }
    }
    if inicio < n {
        let linea = String::from_str(fuente.substring_char(inicio, n));
        let ghost antes = vista_cadenas(r@);
        r.push(linea);
        proof {
            assert(vista_cadenas(r@) =~= antes.push(fuente@.subrange(inicio as int, n as int)));
            assert(antes + lineas_desde(fuente@, inicio as int, i as int) =~= vista_cadenas(r@));
        }
    } else {
        proof {
            assert(vista_cadenas(r@) + lineas_desde(fuente@, inicio as int, i as int)
                =~= vista_cadenas(r@));
        }
    }
    r
}

} // verus!
