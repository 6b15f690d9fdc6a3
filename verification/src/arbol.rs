//! A tree of texts and its outline: each node on a line of its own, under its
//! parent and indented with branch marks.

use vstd::prelude::*;

verus! {

/// A node: its text and its children, in order.
#[derive(Debug)]
pub struct Nodo {
    pub valor: String,
    pub hijos: Vec<Nodo>,
}

/// The model of a node.
pub struct SpecNodo {
    pub valor: Seq<char>,
    pub hijos: Seq<SpecNodo>,
}

/// A leaf: a node without children.
pub open spec fn hoja(valor: Seq<char>) -> SpecNodo {
    SpecNodo { valor, hijos: Seq::empty() }
}

pub open spec fn vista_nodo(n: Nodo) -> SpecNodo
    decreases n,
{
    SpecNodo { valor: n.valor@, hijos: vista_nodos(n.hijos@) }
}

pub open spec fn vista_nodos(s: Seq<Nodo>) -> Seq<SpecNodo>
    decreases s,
{
    if s.len() == 0 {
        Seq::empty()
    } else {
        vista_nodos(s.drop_last()).push(vista_nodo(s.last()))
    }
}

impl View for Nodo {
    type V = SpecNodo;

    open spec fn view(&self) -> SpecNodo {
        vista_nodo(*self)
    }
}

pub proof fn lema_vista_nodos_push(s: Seq<Nodo>, x: Nodo)
    ensures
        vista_nodos(s.push(x)) == vista_nodos(s).push(vista_nodo(x)),
{
    assert(s.push(x).drop_last() =~= s);
}

/// The nodes of `s` are as many as its nodes, each the model of the one at
/// its place.
pub proof fn lema_vista_nodos(s: Seq<Nodo>)
    ensures
        vista_nodos(s).len() == s.len(),
        forall|i: int| 0 <= i < s.len() ==> #[trigger] vista_nodos(s)[i] == vista_nodo(s[i]),
    decreases s.len(),
{
    if s.len() > 0 {
        lema_vista_nodos(s.drop_last());
    }
}

impl Nodo {
    /// A node with the text `valor` and no children.
    pub fn new(valor: String) -> (r: Nodo)
        ensures
            r@ == hoja(valor@),
    {
        let r = Nodo { valor, hijos: Vec::new() };
        assert(vista_nodos(r.hijos@) =~= Seq::<SpecNodo>::empty());
        r
    }

    /// Adds `hijo` after the last child.
    pub fn agregar_hijo(&mut self, hijo: Nodo)
        ensures
            final(self)@ == (SpecNodo { valor: old(self)@.valor, hijos: old(self)@.hijos.push(hijo@) }),
    {
        proof {
            lema_vista_nodos_push(self.hijos@, hijo);
        }
        self.hijos.push(hijo);
    }
}

/// A tree: a root node and all under it.
#[derive(Debug)]
pub struct Arbol {
    pub raiz: Nodo,
}

impl View for Arbol {
    type V = SpecNodo;

    open spec fn view(&self) -> SpecNodo {
        self.raiz@
    }
}

/// The branch mark before a node: the last child of its parent closes the
/// branch.
pub open spec fn marca(ultimo: bool) -> Seq<char> {
    if ultimo {
        "└── "@
    } else {
        "├── "@
    }
}

/// What the children of a node add to the indentation of theirs.
pub open spec fn sangria(ultimo: bool) -> Seq<char> {
    if ultimo {
        "    "@
    } else {
        "│   "@
    }
}

/// The lines of a node and of all below it, each line after `prefijo`.
pub open spec fn texto_nodo(n: SpecNodo, prefijo: Seq<char>, ultimo: bool) -> Seq<char>
    decreases n, 0int,
{
    prefijo + marca(ultimo) + n.valor + "\n"@ + texto_hijos(
        n.hijos,
        prefijo + sangria(ultimo),
        n.hijos.len() as int,
    )
}

/// The lines of the first `k` nodes of `hs`, siblings under `prefijo`.
pub open spec fn texto_hijos(hs: Seq<SpecNodo>, prefijo: Seq<char>, k: int) -> Seq<char>
    decreases hs, k,
{
    if 0 < k <= hs.len() {
        texto_hijos(hs, prefijo, k - 1) + texto_nodo(hs[k - 1], prefijo, k == hs.len())
    } else {
        Seq::empty()
    }
}

/// The outline of a tree: the root's text on the first line, then each
/// child under it.
pub open spec fn texto_arbol(raiz: SpecNodo) -> Seq<char> {
    raiz.valor + "\n"@ + texto_hijos(raiz.hijos, Seq::empty(), raiz.hijos.len() as int)
}

/// The number of line feeds in a text.
pub open spec fn saltos(s: Seq<char>) -> nat
    decreases s.len(),
{
    if s.len() == 0 {
        0
    } else {
        saltos(s.drop_last()) + if s.last() == '\n' {
            1nat
        } else {
            0nat
        }
    }
}

/// The number of nodes of a tree.
pub open spec fn tamano(n: SpecNodo) -> nat
    decreases n, 1int,
{
    1 + tamano_hijos(n.hijos, n.hijos.len() as int)
}

/// The number of nodes under the first `k` of `hs`, them included.
pub open spec fn tamano_hijos(hs: Seq<SpecNodo>, k: int) -> nat
    decreases hs, k,
{
    if 0 < k <= hs.len() {
        tamano_hijos(hs, k - 1) + tamano(hs[k - 1])
    } else {
        0
    }
}

/// No text of the tree holds a line feed.
pub open spec fn sin_saltos(n: SpecNodo) -> bool
    decreases n, 1int,
{
    saltos(n.valor) == 0 && sin_saltos_hijos(n.hijos, n.hijos.len() as int)
}

pub open spec fn sin_saltos_hijos(hs: Seq<SpecNodo>, k: int) -> bool
    decreases hs, k,
{
    if 0 < k <= hs.len() {
        sin_saltos_hijos(hs, k - 1) && sin_saltos(hs[k - 1])
    } else {
        true
    }
}

/// Line feeds of two texts one after the other add up.
pub proof fn lema_saltos_concat(a: Seq<char>, b: Seq<char>)
    ensures
        saltos(a + b) == saltos(a) + saltos(b),
    decreases b.len(),
{
    if b.len() == 0 {
        assert(a + b =~= a);
    } else {
        lema_saltos_concat(a, b.drop_last());
        assert((a + b).drop_last() =~= a + b.drop_last());
    }
}

proof fn lema_marcas_sin_saltos(ultimo: bool)
    ensures
        saltos(marca(ultimo)) == 0,
        saltos(sangria(ultimo)) == 0,
        saltos("\n"@) == 1,
{
    reveal_strlit("└── ");
    reveal_strlit("├── ");
    reveal_strlit("    ");
    reveal_strlit("│   ");
    reveal_strlit("\n");
    reveal_with_fuel(saltos, 5);
}

/// Each node of a tree takes one line of its outline, when no text holds a
/// line feed: the lines of a node and of all below it are as many as the
/// nodes.
proof fn lema_lineas_nodo(n: SpecNodo, prefijo: Seq<char>, ultimo: bool)
    requires
        sin_saltos(n),
        saltos(prefijo) == 0,
    ensures
        saltos(texto_nodo(n, prefijo, ultimo)) == tamano(n),
    decreases n, 1int,
{
    lema_marcas_sin_saltos(ultimo);
    let siguiente = prefijo + sangria(ultimo);
    lema_saltos_concat(prefijo, sangria(ultimo));
    lema_lineas_hijos(n.hijos, siguiente, n.hijos.len() as int);
    let a = prefijo + marca(ultimo) + n.valor;
    lema_saltos_concat(prefijo, marca(ultimo));
    lema_saltos_concat(prefijo + marca(ultimo), n.valor);
    lema_saltos_concat(a, "\n"@);
    lema_saltos_concat(a + "\n"@, texto_hijos(n.hijos, siguiente, n.hijos.len() as int));
}

proof fn lema_lineas_hijos(hs: Seq<SpecNodo>, prefijo: Seq<char>, k: int)
    requires
        sin_saltos_hijos(hs, k),
        saltos(prefijo) == 0,
    ensures
        saltos(texto_hijos(hs, prefijo, k)) == tamano_hijos(hs, k),
    decreases hs, k,
{
    if 0 < k <= hs.len() {
        lema_lineas_hijos(hs, prefijo, k - 1);
        lema_lineas_nodo(hs[k - 1], prefijo, k == hs.len());
        lema_saltos_concat(
            texto_hijos(hs, prefijo, k - 1),
            texto_nodo(hs[k - 1], prefijo, k == hs.len()),
        );
    }
}

/// The outline of a tree has one line per node: it holds as many line
/// feeds as the tree has nodes, when no text of the tree holds one.
pub proof fn lema_una_linea_por_nodo(raiz: SpecNodo)
    requires
        sin_saltos(raiz),
    ensures
        saltos(texto_arbol(raiz)) == tamano(raiz),
{
    lema_marcas_sin_saltos(true);
    assert(saltos(Seq::<char>::empty()) == 0);
    lema_lineas_hijos(raiz.hijos, Seq::empty(), raiz.hijos.len() as int);
    lema_saltos_concat(raiz.valor, "\n"@);
    lema_saltos_concat(
        raiz.valor + "\n"@,
        texto_hijos(raiz.hijos, Seq::empty(), raiz.hijos.len() as int),
    );
}

/// Writes the children of `n` after `out`, under `prefijo`.
fn escribir_hijos(n: &Nodo, prefijo: &String, out: &mut String)
    ensures
        final(out)@ == old(out)@ + texto_hijos(n@.hijos, prefijo@, n@.hijos.len() as int),
    decreases n, 0int,
{
    proof {
        lema_vista_nodos(n.hijos@);
    }
    let total = n.hijos.len();
    let mut i: usize = 0;
    while i < total
        invariant
            total == n.hijos.len(),
            n@.hijos.len() == total,
            i <= total,
            forall|j: int| 0 <= j < total ==> #[trigger] n@.hijos[j] == vista_nodo(n.hijos@[j]),
            out@ == old(out)@ + texto_hijos(n@.hijos, prefijo@, i as int),
        decreases total - i,
    {
        let ultimo = i + 1 == total;
        let hijo = &n.hijos[i];
        escribir_nodo(hijo, prefijo, ultimo, out);
        i = i + 1;
    }
}

/// Writes `n` and all under it after `out`, under `prefijo`.
fn escribir_nodo(n: &Nodo, prefijo: &String, ultimo: bool, out: &mut String)
    ensures
        final(out)@ == old(out)@ + texto_nodo(n@, prefijo@, ultimo),
    decreases n, 1int,
{
    out.append(prefijo.as_str());
    if ultimo {
        out.append("└── ");
    } else {
        out.append("├── ");
    }
    out.append(n.valor.as_str());
    out.append("\n");
    let mut siguiente = prefijo.clone();
    if ultimo {
        siguiente.append("    ");
    } else {
        siguiente.append("│   ");
    }
    escribir_hijos(n, &siguiente, out);
    proof {
        reveal_strlit("└── ");
        reveal_strlit("├── ");
        reveal_strlit("    ");
        reveal_strlit("│   ");
        reveal_strlit("\n");
    }
    assert(out@ =~= old(out)@ + texto_nodo(n@, prefijo@, ultimo));
}

impl Arbol {
    /// A tree whose root has the text `valor`.
    pub fn con_raiz(valor: String) -> (r: Arbol)
        ensures
            r@ == hoja(valor@),
    {
        Arbol { raiz: Nodo::new(valor) }
    }

    /// The outline of the tree, one node per line.
    pub fn to_repr(&self) -> (r: String)
        ensures
            r@ == texto_arbol(self@),
    {
        let mut out = self.raiz.valor.clone();
        out.append("\n");
        let vacio = String::new();
        escribir_hijos(&self.raiz, &vacio, &mut out);
        assert(vacio@ =~= Seq::<char>::empty());
        assert(out@ =~= texto_arbol(self@));
        out
    }
}

} // verus!
