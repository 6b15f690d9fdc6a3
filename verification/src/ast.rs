//! The abstract syntax tree of the C subset, and its mathematical model.
//!
//! Every node type `X` has a model `SpecX` in which texts are `Seq<char>` and
//! lists are `Seq`; `x@` is the model of `x`.

use crate::token::Posicion;
use vstd::prelude::*;

verus! {

// ---------------------------------------------------------------------------
// Executable tree
// ---------------------------------------------------------------------------

#[derive(Debug, PartialEq)]
pub struct Programa {
    pub declaraciones: Vec<DeclExterna>,
}

#[derive(Debug, PartialEq)]
pub enum DeclExterna {
    Funcion(FuncionDef),
    Declaracion(Declaracion),
}

#[derive(Debug, PartialEq)]
pub struct FuncionDef {
    pub posicion: Posicion,
    pub especificadores: Especificadores,
    pub declarador: Declarador,
    pub cuerpo: Bloque,
}

#[derive(Debug, PartialEq)]
pub struct Declaracion {
    pub posicion: Posicion,
    pub especificadores: Especificadores,
    pub declaradores: Vec<InitDeclarador>,
}

#[derive(Debug, PartialEq, Default)]
pub struct Especificadores {
    pub almacenamiento: Vec<Almacenamiento>,
    pub calificadores: Vec<Calificador>,
    pub tipo: Option<Tipo>,
}

#[derive(Debug, Clone, Copy, PartialEq, Eq)]
pub enum Almacenamiento {
    Auto,
    Register,
    Static,
    Extern,
    Typedef,
}

#[derive(Debug, Clone, Copy, PartialEq, Eq)]
pub enum Calificador {
    Const,
    Volatile,
}

#[derive(Debug, PartialEq)]
pub enum Tipo {
    Primitivo(TipoPrimitivo),
    Puntero { calificadores: Vec<Calificador>, apunta_a: Box<Tipo> },
    Array { elemento: Box<Tipo>, tamano: Option<Box<Expr>> },
    Funcion { retorno: Box<Tipo>, parametros: Vec<Parametro> },
    Struct(StructUnionSpec),
    Union(StructUnionSpec),
    Enum(EnumSpec),
    Nombre(String),
}

#[derive(Debug, Clone, Copy, PartialEq, Eq)]
pub enum TipoPrimitivo {
    Void,
    Char,
    Short,
    Int,
    Long,
    Float,
    Double,
    Signed,
    Unsigned,
}

#[derive(Debug, PartialEq)]
pub struct StructUnionSpec {
    pub nombre: Option<String>,
    pub miembros: Vec<Declaracion>,
}

#[derive(Debug, PartialEq)]
pub struct EnumSpec {
    pub nombre: Option<String>,
    pub enumeradores: Vec<Enumerador>,
}

#[derive(Debug, PartialEq)]
pub struct Enumerador {
    pub nombre: String,
    pub valor: Option<Box<Expr>>,
}

#[derive(Debug, PartialEq)]
pub struct Declarador {
    pub punteros: Vec<Puntero>,
    pub base: DeclaradorBase,
}

#[derive(Debug, PartialEq)]
pub struct Puntero {
    pub calificadores: Vec<Calificador>,
}

#[derive(Debug, PartialEq)]
pub enum DeclaradorBase {
    Identificador(String),
    Derivado { interno: Box<DeclaradorBase>, sufijo: SufijoDeclarador },
    Agrupado(Box<Declarador>),
}

#[derive(Debug, PartialEq)]
pub enum SufijoDeclarador {
    Array(Option<Box<Expr>>),
    Funcion(Vec<Parametro>),
}

#[derive(Debug, PartialEq)]
pub struct Parametro {
    pub especificadores: Especificadores,
    pub declarador: Option<Declarador>,
}

#[derive(Debug, PartialEq)]
pub struct InitDeclarador {
    pub declarador: Declarador,
    pub inicializador: Option<Inicializador>,
}

#[derive(Debug, PartialEq)]
pub enum Inicializador {
    Expr(Box<Expr>),
    Lista(Vec<Inicializador>),
}

#[derive(Debug, PartialEq)]
pub struct Bloque {
    pub posicion: Posicion,
    pub items: Vec<ItemBloque>,
}

#[derive(Debug, PartialEq)]
pub enum ItemBloque {
    Declaracion(Declaracion),
    Sentencia(Sentencia),
}

#[derive(Debug, PartialEq)]
pub enum Sentencia {
    Etiquetada { posicion: Posicion, etiqueta: Etiqueta, sentencia: Box<Sentencia> },
    Compuesta(Bloque),
    Expr { posicion: Posicion, expr: Option<Box<Expr>> },
    Seleccion(Seleccion),
    Iteracion(Iteracion),
    Salto(Salto),
}

#[derive(Debug, PartialEq)]
pub enum Etiqueta {
    Identificador(String),
    Case(Box<Expr>),
    Default,
}

#[derive(Debug, PartialEq)]
pub enum Seleccion {
    If {
        posicion: Posicion,
        condicion: Box<Expr>,
        entonces: Box<Sentencia>,
        sino: Option<Box<Sentencia>>,
    },
    Switch { posicion: Posicion, condicion: Box<Expr>, cuerpo: Box<Sentencia> },
}

#[derive(Debug, PartialEq)]
pub enum Iteracion {
    While { posicion: Posicion, condicion: Box<Expr>, cuerpo: Box<Sentencia> },
    DoWhile { posicion: Posicion, cuerpo: Box<Sentencia>, condicion: Box<Expr> },
    For {
        posicion: Posicion,
        init: Option<ForInit>,
        condicion: Option<Box<Expr>>,
        incremento: Option<Box<Expr>>,
        cuerpo: Box<Sentencia>,
    },
}

#[derive(Debug, PartialEq)]
pub enum ForInit {
    Expr(Option<Box<Expr>>),
    Declaracion(Declaracion),
}

#[derive(Debug, PartialEq)]
pub enum Salto {
    Goto { posicion: Posicion, etiqueta: String },
    Continuar { posicion: Posicion },
    Romper { posicion: Posicion },
    Retornar { posicion: Posicion, valor: Option<Box<Expr>> },
}

#[derive(Debug, PartialEq)]
pub enum Expr {
    Literal { posicion: Posicion, valor: Literal },
    Identificador { posicion: Posicion, nombre: String },
    Binaria {
        posicion: Posicion,
        operador: OperadorBinario,
        izquierda: Box<Expr>,
        derecha: Box<Expr>,
    },
    Unaria { posicion: Posicion, operador: OperadorUnario, operando: Box<Expr> },
    Ternaria { posicion: Posicion, condicion: Box<Expr>, verdadero: Box<Expr>, falso: Box<Expr> },
    Asignacion {
        posicion: Posicion,
        operador: OperadorAsignacion,
        destino: Box<Expr>,
        valor: Box<Expr>,
    },
    Llamada { posicion: Posicion, funcion: Box<Expr>, argumentos: Vec<Expr> },
    Index { posicion: Posicion, arreglo: Box<Expr>, indice: Box<Expr> },
    Miembro { posicion: Posicion, objeto: Box<Expr>, miembro: String, es_puntero: bool },
    Cast { posicion: Posicion, tipo: Tipo, expr: Box<Expr> },
    Sizeof { posicion: Posicion, es_tipo: bool, objetivo: SizeofObjetivo },
}

#[derive(Debug, PartialEq)]
pub enum SizeofObjetivo {
    Expr(Box<Expr>),
    Tipo(Tipo),
}

#[derive(Debug, PartialEq)]
pub enum Literal {
    Entero(String),
    Flotante(String),
    Caracter(String),
    Cadena(String),
}

#[derive(Debug, Clone, Copy, PartialEq, Eq)]
pub enum OperadorBinario {
    Mas,
    Menos,
    Asterisco,
    Barra,
    Porcentaje,
    Menor,
    Mayor,
    MenorIgual,
    MayorIgual,
    Igual,
    Distinto,
    YLogico,
    OLogico,
    YBit,
    OBit,
    XorBit,
    DesplazarIzq,
    DesplazarDer,
}

#[derive(Debug, Clone, Copy, PartialEq, Eq)]
pub enum OperadorUnario {
    Mas,
    Menos,
    Negacion,
    Complemento,
    Asterisco,
    YBit,
    Incremento,
    Decremento,
}

#[derive(Debug, Clone, Copy, PartialEq, Eq)]
pub enum OperadorAsignacion {
    Asignar,
    MasAsignar,
    MenosAsignar,
    AsteriscoAsignar,
    BarraAsignar,
    PorcentajeAsignar,
}

// ---------------------------------------------------------------------------
// Copies
// ---------------------------------------------------------------------------

impl Programa {
    /// A copy of the node and of all below it.
    pub fn clonar(&self) -> (r: Programa)
        ensures
            r@ == self@,
        decreases self,
    {
        Programa { declaraciones: clonar_lista_decl_externa((&self.declaraciones)) }
    }
}

impl Clone for Programa {
    fn clone(&self) -> (r: Programa)
        ensures
            r@ == self@,
    {
        self.clonar()
    }
}

impl DeclExterna {
    /// A copy of the node and of all below it.
    pub fn clonar(&self) -> (r: DeclExterna)
        ensures
            r@ == self@,
        decreases self,
    {
        match self {
            DeclExterna::Funcion(x0) => DeclExterna::Funcion(x0.clonar()),
            DeclExterna::Declaracion(x0) => DeclExterna::Declaracion(x0.clonar()),
        }
    }
}

impl Clone for DeclExterna {
    fn clone(&self) -> (r: DeclExterna)
        ensures
            r@ == self@,
    {
        self.clonar()
    }
}

impl FuncionDef {
    /// A copy of the node and of all below it.
    pub fn clonar(&self) -> (r: FuncionDef)
        ensures
            r@ == self@,
        decreases self,
    {
        FuncionDef { posicion: *(&self.posicion), especificadores: (&self.especificadores).clonar(), declarador: (&self.declarador).clonar(), cuerpo: (&self.cuerpo).clonar() }
    }
}

impl Clone for FuncionDef {
    fn clone(&self) -> (r: FuncionDef)
        ensures
            r@ == self@,
    {
        self.clonar()
    }
}

impl Declaracion {
    /// A copy of the node and of all below it.
    pub fn clonar(&self) -> (r: Declaracion)
        ensures
            r@ == self@,
        decreases self,
    {
        Declaracion { posicion: *(&self.posicion), especificadores: (&self.especificadores).clonar(), declaradores: clonar_lista_init_declarador((&self.declaradores)) }
    }
}

impl Clone for Declaracion {
    fn clone(&self) -> (r: Declaracion)
        ensures
            r@ == self@,
    {
        self.clonar()
    }
}

impl Especificadores {
    /// A copy of the node and of all below it.
    pub fn clonar(&self) -> (r: Especificadores)
        ensures
            r@ == self@,
        decreases self,
    {
        Especificadores { almacenamiento: (&self.almacenamiento).clone(), calificadores: (&self.calificadores).clone(), tipo: match (&self.tipo) { Some(v) => Some(v.clonar()), None => None } }
    }
}

impl Clone for Especificadores {
    fn clone(&self) -> (r: Especificadores)
        ensures
            r@ == self@,
    {
        self.clonar()
    }
}

impl Tipo {
    /// A copy of the node and of all below it.
    pub fn clonar(&self) -> (r: Tipo)
        ensures
            r@ == self@,
        decreases self,
    {
        match self {
            Tipo::Primitivo(x0) => Tipo::Primitivo(*x0),
            Tipo::Puntero { calificadores, apunta_a } => {
                let c = calificadores.clone();
                assert(c@ =~= calificadores@);
                Tipo::Puntero { calificadores: c, apunta_a: Box::new((&**apunta_a).clonar()) }
            },
            Tipo::Array { elemento, tamano } => {
                let t = match tamano {
                    Some(v) => Some(Box::new((&**v).clonar())),
                    None => None,
                };
                assert(vista_expr_opt(t) == vista_expr_opt(*tamano));
                Tipo::Array { elemento: Box::new((&**elemento).clonar()), tamano: t }
            },
            Tipo::Funcion { retorno, parametros } => Tipo::Funcion { retorno: Box::new((&**retorno).clonar()), parametros: clonar_lista_parametro(parametros) },
            Tipo::Struct(x0) => Tipo::Struct(x0.clonar()),
            Tipo::Union(x0) => Tipo::Union(x0.clonar()),
            Tipo::Enum(x0) => Tipo::Enum(x0.clonar()),
            Tipo::Nombre(x0) => Tipo::Nombre(x0.clone()),
        }
    }
}

impl Clone for Tipo {
    fn clone(&self) -> (r: Tipo)
        ensures
            r@ == self@,
    {
        self.clonar()
    }
}

impl StructUnionSpec {
    /// A copy of the node and of all below it.
    pub fn clonar(&self) -> (r: StructUnionSpec)
        ensures
            r@ == self@,
        decreases self,
    {
        StructUnionSpec { nombre: match (&self.nombre) { Some(v) => Some(v.clone()), None => None }, miembros: clonar_lista_declaracion((&self.miembros)) }
    }
}

impl Clone for StructUnionSpec {
    fn clone(&self) -> (r: StructUnionSpec)
        ensures
            r@ == self@,
    {
        self.clonar()
    }
}

impl EnumSpec {
    /// A copy of the node and of all below it.
    pub fn clonar(&self) -> (r: EnumSpec)
        ensures
            r@ == self@,
        decreases self,
    {
        EnumSpec { nombre: match (&self.nombre) { Some(v) => Some(v.clone()), None => None }, enumeradores: clonar_lista_enumerador((&self.enumeradores)) }
    }
}

impl Clone for EnumSpec {
    fn clone(&self) -> (r: EnumSpec)
        ensures
            r@ == self@,
    {
        self.clonar()
    }
}

impl Enumerador {
    /// A copy of the node and of all below it.
    pub fn clonar(&self) -> (r: Enumerador)
        ensures
            r@ == self@,
        decreases self,
    {
        Enumerador { nombre: (&self.nombre).clone(), valor: match (&self.valor) { Some(v) => Some(Box::new((&**v).clonar())), None => None } }
    }
}

impl Clone for Enumerador {
    fn clone(&self) -> (r: Enumerador)
        ensures
            r@ == self@,
    {
        self.clonar()
    }
}

impl Declarador {
    /// A copy of the node and of all below it.
    pub fn clonar(&self) -> (r: Declarador)
        ensures
            r@ == self@,
        decreases self,
    {
        Declarador { punteros: clonar_lista_puntero((&self.punteros)), base: (&self.base).clonar() }
    }
}

impl Clone for Declarador {
    fn clone(&self) -> (r: Declarador)
        ensures
            r@ == self@,
    {
        self.clonar()
    }
}

impl Puntero {
    /// A copy of the node and of all below it.
    pub fn clonar(&self) -> (r: Puntero)
        ensures
            r@ == self@,
        decreases self,
    {
        Puntero { calificadores: (&self.calificadores).clone() }
    }
}

impl Clone for Puntero {
    fn clone(&self) -> (r: Puntero)
        ensures
            r@ == self@,
    {
        self.clonar()
    }
}

impl DeclaradorBase {
    /// A copy of the node and of all below it.
    pub fn clonar(&self) -> (r: DeclaradorBase)
        ensures
            r@ == self@,
        decreases self,
    {
        match self {
            DeclaradorBase::Identificador(x0) => DeclaradorBase::Identificador(x0.clone()),
            DeclaradorBase::Derivado { interno, sufijo } => DeclaradorBase::Derivado { interno: Box::new((&**interno).clonar()), sufijo: sufijo.clonar() },
            DeclaradorBase::Agrupado(x0) => DeclaradorBase::Agrupado(Box::new((&**x0).clonar())),
        }
    }
}

impl Clone for DeclaradorBase {
    fn clone(&self) -> (r: DeclaradorBase)
        ensures
            r@ == self@,
    {
        self.clonar()
    }
}

impl SufijoDeclarador {
    /// A copy of the node and of all below it.
    pub fn clonar(&self) -> (r: SufijoDeclarador)
        ensures
            r@ == self@,
        decreases self,
    {
        match self {
            SufijoDeclarador::Array(x0) => SufijoDeclarador::Array(match x0 { Some(v) => Some(Box::new((&**v).clonar())), None => None }),
            SufijoDeclarador::Funcion(x0) => SufijoDeclarador::Funcion(clonar_lista_parametro(x0)),
        }
    }
}

impl Clone for SufijoDeclarador {
    fn clone(&self) -> (r: SufijoDeclarador)
        ensures
            r@ == self@,
    {
        self.clonar()
    }
}

impl Parametro {
    /// A copy of the node and of all below it.
    pub fn clonar(&self) -> (r: Parametro)
        ensures
            r@ == self@,
        decreases self,
    {
        Parametro { especificadores: (&self.especificadores).clonar(), declarador: match (&self.declarador) { Some(v) => Some(v.clonar()), None => None } }
    }
}

impl Clone for Parametro {
    fn clone(&self) -> (r: Parametro)
        ensures
            r@ == self@,
    {
        self.clonar()
    }
}

impl InitDeclarador {
    /// A copy of the node and of all below it.
    pub fn clonar(&self) -> (r: InitDeclarador)
        ensures
            r@ == self@,
        decreases self,
    {
        InitDeclarador { declarador: (&self.declarador).clonar(), inicializador: match (&self.inicializador) { Some(v) => Some(v.clonar()), None => None } }
    }
}

impl Clone for InitDeclarador {
    fn clone(&self) -> (r: InitDeclarador)
        ensures
            r@ == self@,
    {
        self.clonar()
    }
}

impl Inicializador {
    /// A copy of the node and of all below it.
    pub fn clonar(&self) -> (r: Inicializador)
        ensures
            r@ == self@,
        decreases self,
    {
        match self {
            Inicializador::Expr(x0) => Inicializador::Expr(Box::new((&**x0).clonar())),
            Inicializador::Lista(x0) => Inicializador::Lista(clonar_lista_inicializador(x0)),
        }
    }
}

impl Clone for Inicializador {
    fn clone(&self) -> (r: Inicializador)
        ensures
            r@ == self@,
    {
        self.clonar()
    }
}

impl Bloque {
    /// A copy of the node and of all below it.
    pub fn clonar(&self) -> (r: Bloque)
        ensures
            r@ == self@,
        decreases self,
    {
        Bloque { posicion: *(&self.posicion), items: clonar_lista_item_bloque((&self.items)) }
    }
}

impl Clone for Bloque {
    fn clone(&self) -> (r: Bloque)
        ensures
            r@ == self@,
    {
        self.clonar()
    }
}

impl ItemBloque {
    /// A copy of the node and of all below it.
    pub fn clonar(&self) -> (r: ItemBloque)
        ensures
            r@ == self@,
        decreases self,
    {
        match self {
            ItemBloque::Declaracion(x0) => ItemBloque::Declaracion(x0.clonar()),
            ItemBloque::Sentencia(x0) => ItemBloque::Sentencia(x0.clonar()),
        }
    }
}

impl Clone for ItemBloque {
    fn clone(&self) -> (r: ItemBloque)
        ensures
            r@ == self@,
    {
        self.clonar()
    }
}

impl Sentencia {
    /// A copy of the node and of all below it.
    pub fn clonar(&self) -> (r: Sentencia)
        ensures
            r@ == self@,
        decreases self,
    {
        match self {
            Sentencia::Etiquetada { posicion, etiqueta, sentencia } => Sentencia::Etiquetada { posicion: *posicion, etiqueta: etiqueta.clonar(), sentencia: Box::new((&**sentencia).clonar()) },
            Sentencia::Compuesta(x0) => Sentencia::Compuesta(x0.clonar()),
            Sentencia::Expr { posicion, expr } => Sentencia::Expr { posicion: *posicion, expr: match expr { Some(v) => Some(Box::new((&**v).clonar())), None => None } },
            Sentencia::Seleccion(x0) => Sentencia::Seleccion(x0.clonar()),
            Sentencia::Iteracion(x0) => Sentencia::Iteracion(x0.clonar()),
            Sentencia::Salto(x0) => Sentencia::Salto(x0.clonar()),
        }
    }
}

impl Clone for Sentencia {
    fn clone(&self) -> (r: Sentencia)
        ensures
            r@ == self@,
    {
        self.clonar()
    }
}

impl Etiqueta {
    /// A copy of the node and of all below it.
    pub fn clonar(&self) -> (r: Etiqueta)
        ensures
            r@ == self@,
        decreases self,
    {
        match self {
            Etiqueta::Identificador(x0) => Etiqueta::Identificador(x0.clone()),
            Etiqueta::Case(x0) => Etiqueta::Case(Box::new((&**x0).clonar())),
            Etiqueta::Default => Etiqueta::Default,
        }
    }
}

impl Clone for Etiqueta {
    fn clone(&self) -> (r: Etiqueta)
        ensures
            r@ == self@,
    {
        self.clonar()
    }
}

impl Seleccion {
    /// A copy of the node and of all below it.
    pub fn clonar(&self) -> (r: Seleccion)
        ensures
            r@ == self@,
        decreases self,
    {
        match self {
            Seleccion::If { posicion, condicion, entonces, sino } => Seleccion::If { posicion: *posicion, condicion: Box::new((&**condicion).clonar()), entonces: Box::new((&**entonces).clonar()), sino: match sino { Some(v) => Some(Box::new((&**v).clonar())), None => None } },
            Seleccion::Switch { posicion, condicion, cuerpo } => Seleccion::Switch { posicion: *posicion, condicion: Box::new((&**condicion).clonar()), cuerpo: Box::new((&**cuerpo).clonar()) },
        }
    }
}

impl Clone for Seleccion {
    fn clone(&self) -> (r: Seleccion)
        ensures
            r@ == self@,
    {
        self.clonar()
    }
}

impl Iteracion {
    /// A copy of the node and of all below it.
    pub fn clonar(&self) -> (r: Iteracion)
        ensures
            r@ == self@,
        decreases self,
    {
        match self {
            Iteracion::While { posicion, condicion, cuerpo } => Iteracion::While { posicion: *posicion, condicion: Box::new((&**condicion).clonar()), cuerpo: Box::new((&**cuerpo).clonar()) },
            Iteracion::DoWhile { posicion, cuerpo, condicion } => Iteracion::DoWhile { posicion: *posicion, cuerpo: Box::new((&**cuerpo).clonar()), condicion: Box::new((&**condicion).clonar()) },
            Iteracion::For { posicion, init, condicion, incremento, cuerpo } => Iteracion::For { posicion: *posicion, init: match init { Some(v) => Some(v.clonar()), None => None }, condicion: match condicion { Some(v) => Some(Box::new((&**v).clonar())), None => None }, incremento: match incremento { Some(v) => Some(Box::new((&**v).clonar())), None => None }, cuerpo: Box::new((&**cuerpo).clonar()) },
        }
    }
}

impl Clone for Iteracion {
    fn clone(&self) -> (r: Iteracion)
        ensures
            r@ == self@,
    {
        self.clonar()
    }
}

impl ForInit {
    /// A copy of the node and of all below it.
    pub fn clonar(&self) -> (r: ForInit)
        ensures
            r@ == self@,
        decreases self,
    {
        match self {
            ForInit::Expr(x0) => ForInit::Expr(match x0 { Some(v) => Some(Box::new((&**v).clonar())), None => None }),
            ForInit::Declaracion(x0) => ForInit::Declaracion(x0.clonar()),
        }
    }
}

impl Clone for ForInit {
    fn clone(&self) -> (r: ForInit)
        ensures
            r@ == self@,
    {
        self.clonar()
    }
}

impl Salto {
    /// A copy of the node and of all below it.
    pub fn clonar(&self) -> (r: Salto)
        ensures
            r@ == self@,
        decreases self,
    {
        match self {
            Salto::Goto { posicion, etiqueta } => Salto::Goto { posicion: *posicion, etiqueta: etiqueta.clone() },
            Salto::Continuar { posicion } => Salto::Continuar { posicion: *posicion },
            Salto::Romper { posicion } => Salto::Romper { posicion: *posicion },
            Salto::Retornar { posicion, valor } => Salto::Retornar { posicion: *posicion, valor: match valor { Some(v) => Some(Box::new((&**v).clonar())), None => None } },
        }
    }
}

impl Clone for Salto {
    fn clone(&self) -> (r: Salto)
        ensures
            r@ == self@,
    {
        self.clonar()
    }
}

impl Expr {
    /// A copy of the node and of all below it.
    pub fn clonar(&self) -> (r: Expr)
        ensures
            r@ == self@,
        decreases self,
    {
        match self {
            Expr::Literal { posicion, valor } => Expr::Literal { posicion: *posicion, valor: valor.clonar() },
            Expr::Identificador { posicion, nombre } => Expr::Identificador { posicion: *posicion, nombre: nombre.clone() },
            Expr::Binaria { posicion, operador, izquierda, derecha } => Expr::Binaria { posicion: *posicion, operador: *operador, izquierda: Box::new((&**izquierda).clonar()), derecha: Box::new((&**derecha).clonar()) },
            Expr::Unaria { posicion, operador, operando } => Expr::Unaria { posicion: *posicion, operador: *operador, operando: Box::new((&**operando).clonar()) },
            Expr::Ternaria { posicion, condicion, verdadero, falso } => Expr::Ternaria { posicion: *posicion, condicion: Box::new((&**condicion).clonar()), verdadero: Box::new((&**verdadero).clonar()), falso: Box::new((&**falso).clonar()) },
            Expr::Asignacion { posicion, operador, destino, valor } => Expr::Asignacion { posicion: *posicion, operador: *operador, destino: Box::new((&**destino).clonar()), valor: Box::new((&**valor).clonar()) },
            Expr::Llamada { posicion, funcion, argumentos } => Expr::Llamada { posicion: *posicion, funcion: Box::new((&**funcion).clonar()), argumentos: clonar_lista_expr(argumentos) },
            Expr::Index { posicion, arreglo, indice } => Expr::Index { posicion: *posicion, arreglo: Box::new((&**arreglo).clonar()), indice: Box::new((&**indice).clonar()) },
            Expr::Miembro { posicion, objeto, miembro, es_puntero } => Expr::Miembro { posicion: *posicion, objeto: Box::new((&**objeto).clonar()), miembro: miembro.clone(), es_puntero: *es_puntero },
            Expr::Cast { posicion, tipo, expr } => Expr::Cast { posicion: *posicion, tipo: tipo.clonar(), expr: Box::new((&**expr).clonar()) },
            Expr::Sizeof { posicion, es_tipo, objetivo } => Expr::Sizeof { posicion: *posicion, es_tipo: *es_tipo, objetivo: objetivo.clonar() },
        }
    }
}

impl Clone for Expr {
    fn clone(&self) -> (r: Expr)
        ensures
            r@ == self@,
    {
        self.clonar()
    }
}

impl SizeofObjetivo {
    /// A copy of the node and of all below it.
    pub fn clonar(&self) -> (r: SizeofObjetivo)
        ensures
            r@ == self@,
        decreases self,
    {
        match self {
            SizeofObjetivo::Expr(x0) => SizeofObjetivo::Expr(Box::new((&**x0).clonar())),
            SizeofObjetivo::Tipo(x0) => SizeofObjetivo::Tipo(x0.clonar()),
        }
    }
}

impl Clone for SizeofObjetivo {
    fn clone(&self) -> (r: SizeofObjetivo)
        ensures
            r@ == self@,
    {
        self.clonar()
    }
}

impl Literal {
    /// A copy of the node and of all below it.
    pub fn clonar(&self) -> (r: Literal)
        ensures
            r@ == self@,
        decreases self,
    {
        match self {
            Literal::Entero(x0) => Literal::Entero(x0.clone()),
            Literal::Flotante(x0) => Literal::Flotante(x0.clone()),
            Literal::Caracter(x0) => Literal::Caracter(x0.clone()),
            Literal::Cadena(x0) => Literal::Cadena(x0.clone()),
        }
    }
}

impl Clone for Literal {
    fn clone(&self) -> (r: Literal)
        ensures
            r@ == self@,
    {
        self.clonar()
    }
}

/// A copy of each node of the list, in order.
fn clonar_lista_decl_externa(v: &Vec<DeclExterna>) -> (r: Vec<DeclExterna>)
    ensures
        vista_decls_externas(r@) == vista_decls_externas(v@),
    decreases v,
{
    let mut r: Vec<DeclExterna> = Vec::new();
    let mut i: usize = 0;
    while i < v.len()
        invariant
            i <= v.len(),
            vista_decls_externas(r@) == vista_decls_externas(v@.take(i as int)),
        decreases v.len() - i,
    {
        assert(decreases_to!(v => v@));
        assert(decreases_to!(v@ => v@[i as int]));
        let x = v[i].clonar();
        proof {
            lema_vista_decls_externas_push(r@, x);
            lema_vista_decls_externas_push(v@.take(i as int), v@[i as int]);
            assert(v@.take(i + 1) =~= v@.take(i as int).push(v@[i as int]));
        }
        r.push(x);
        i = i + 1;
    }
    assert(v@.take(i as int) =~= v@);
    r
}

/// A copy of each node of the list, in order.
fn clonar_lista_declaracion(v: &Vec<Declaracion>) -> (r: Vec<Declaracion>)
    ensures
        vista_declaraciones(r@) == vista_declaraciones(v@),
    decreases v,
{
    let mut r: Vec<Declaracion> = Vec::new();
    let mut i: usize = 0;
    while i < v.len()
        invariant
            i <= v.len(),
            vista_declaraciones(r@) == vista_declaraciones(v@.take(i as int)),
        decreases v.len() - i,
    {
        assert(decreases_to!(v => v@));
        assert(decreases_to!(v@ => v@[i as int]));
        let x = v[i].clonar();
        proof {
            lema_vista_declaraciones_push(r@, x);
            lema_vista_declaraciones_push(v@.take(i as int), v@[i as int]);
            assert(v@.take(i + 1) =~= v@.take(i as int).push(v@[i as int]));
        }
        r.push(x);
        i = i + 1;
    }
    assert(v@.take(i as int) =~= v@);
    r
}

/// A copy of each node of the list, in order.
fn clonar_lista_enumerador(v: &Vec<Enumerador>) -> (r: Vec<Enumerador>)
    ensures
        vista_enumeradores(r@) == vista_enumeradores(v@),
    decreases v,
{
    let mut r: Vec<Enumerador> = Vec::new();
    let mut i: usize = 0;
    while i < v.len()
        invariant
            i <= v.len(),
            vista_enumeradores(r@) == vista_enumeradores(v@.take(i as int)),
        decreases v.len() - i,
    {
        assert(decreases_to!(v => v@));
        assert(decreases_to!(v@ => v@[i as int]));
        let x = v[i].clonar();
        proof {
            lema_vista_enumeradores_push(r@, x);
            lema_vista_enumeradores_push(v@.take(i as int), v@[i as int]);
            assert(v@.take(i + 1) =~= v@.take(i as int).push(v@[i as int]));
        }
        r.push(x);
        i = i + 1;
    }
    assert(v@.take(i as int) =~= v@);
    r
}

/// A copy of each node of the list, in order.
fn clonar_lista_expr(v: &Vec<Expr>) -> (r: Vec<Expr>)
    ensures
        vista_exprs(r@) == vista_exprs(v@),
    decreases v,
{
    let mut r: Vec<Expr> = Vec::new();
    let mut i: usize = 0;
    while i < v.len()
        invariant
            i <= v.len(),
            vista_exprs(r@) == vista_exprs(v@.take(i as int)),
        decreases v.len() - i,
    {
        assert(decreases_to!(v => v@));
        assert(decreases_to!(v@ => v@[i as int]));
        let x = v[i].clonar();
        proof {
            lema_vista_exprs_push(r@, x);
            lema_vista_exprs_push(v@.take(i as int), v@[i as int]);
            assert(v@.take(i + 1) =~= v@.take(i as int).push(v@[i as int]));
        }
        r.push(x);
        i = i + 1;
    }
    assert(v@.take(i as int) =~= v@);
    r
}

/// A copy of each node of the list, in order.
fn clonar_lista_inicializador(v: &Vec<Inicializador>) -> (r: Vec<Inicializador>)
    ensures
        vista_inicializadores(r@) == vista_inicializadores(v@),
    decreases v,
{
    let mut r: Vec<Inicializador> = Vec::new();
    let mut i: usize = 0;
    while i < v.len()
        invariant
            i <= v.len(),
            vista_inicializadores(r@) == vista_inicializadores(v@.take(i as int)),
        decreases v.len() - i,
    {
        assert(decreases_to!(v => v@));
        assert(decreases_to!(v@ => v@[i as int]));
        let x = v[i].clonar();
        proof {
            lema_vista_inicializadores_push(r@, x);
            lema_vista_inicializadores_push(v@.take(i as int), v@[i as int]);
            assert(v@.take(i + 1) =~= v@.take(i as int).push(v@[i as int]));
        }
        r.push(x);
        i = i + 1;
    }
    assert(v@.take(i as int) =~= v@);
    r
}

/// A copy of each node of the list, in order.
fn clonar_lista_init_declarador(v: &Vec<InitDeclarador>) -> (r: Vec<InitDeclarador>)
    ensures
        vista_init_declaradores(r@) == vista_init_declaradores(v@),
    decreases v,
{
    let mut r: Vec<InitDeclarador> = Vec::new();
    let mut i: usize = 0;
    while i < v.len()
        invariant
            i <= v.len(),
            vista_init_declaradores(r@) == vista_init_declaradores(v@.take(i as int)),
        decreases v.len() - i,
    {
        assert(decreases_to!(v => v@));
        assert(decreases_to!(v@ => v@[i as int]));
        let x = v[i].clonar();
        proof {
            lema_vista_init_declaradores_push(r@, x);
            lema_vista_init_declaradores_push(v@.take(i as int), v@[i as int]);
            assert(v@.take(i + 1) =~= v@.take(i as int).push(v@[i as int]));
        }
        r.push(x);
        i = i + 1;
    }
    assert(v@.take(i as int) =~= v@);
    r
}

/// A copy of each node of the list, in order.
fn clonar_lista_item_bloque(v: &Vec<ItemBloque>) -> (r: Vec<ItemBloque>)
    ensures
        vista_items(r@) == vista_items(v@),
    decreases v,
{
    let mut r: Vec<ItemBloque> = Vec::new();
    let mut i: usize = 0;
    while i < v.len()
        invariant
            i <= v.len(),
            vista_items(r@) == vista_items(v@.take(i as int)),
        decreases v.len() - i,
    {
        assert(decreases_to!(v => v@));
        assert(decreases_to!(v@ => v@[i as int]));
        let x = v[i].clonar();
        proof {
            lema_vista_items_push(r@, x);
            lema_vista_items_push(v@.take(i as int), v@[i as int]);
            assert(v@.take(i + 1) =~= v@.take(i as int).push(v@[i as int]));
        }
        r.push(x);
        i = i + 1;
    }
    assert(v@.take(i as int) =~= v@);
    r
}

/// A copy of each node of the list, in order.
fn clonar_lista_parametro(v: &Vec<Parametro>) -> (r: Vec<Parametro>)
    ensures
        vista_parametros(r@) == vista_parametros(v@),
    decreases v,
{
    let mut r: Vec<Parametro> = Vec::new();
    let mut i: usize = 0;
    while i < v.len()
        invariant
            i <= v.len(),
            vista_parametros(r@) == vista_parametros(v@.take(i as int)),
        decreases v.len() - i,
    {
        assert(decreases_to!(v => v@));
        assert(decreases_to!(v@ => v@[i as int]));
        let x = v[i].clonar();
        proof {
            lema_vista_parametros_push(r@, x);
            lema_vista_parametros_push(v@.take(i as int), v@[i as int]);
            assert(v@.take(i + 1) =~= v@.take(i as int).push(v@[i as int]));
        }
        r.push(x);
        i = i + 1;
    }
    assert(v@.take(i as int) =~= v@);
    r
}

/// A copy of each node of the list, in order.
fn clonar_lista_puntero(v: &Vec<Puntero>) -> (r: Vec<Puntero>)
    ensures
        vista_punteros(r@) == vista_punteros(v@),
    decreases v,
{
    let mut r: Vec<Puntero> = Vec::new();
    let mut i: usize = 0;
    while i < v.len()
        invariant
            i <= v.len(),
            vista_punteros(r@) == vista_punteros(v@.take(i as int)),
        decreases v.len() - i,
    {
        assert(decreases_to!(v => v@));
        assert(decreases_to!(v@ => v@[i as int]));
        let x = v[i].clonar();
        proof {
            lema_vista_punteros_push(r@, x);
            lema_vista_punteros_push(v@.take(i as int), v@[i as int]);
            assert(v@.take(i + 1) =~= v@.take(i as int).push(v@[i as int]));
        }
        r.push(x);
        i = i + 1;
    }
    assert(v@.take(i as int) =~= v@);
    r
}

// ---------------------------------------------------------------------------
// Model
// ---------------------------------------------------------------------------

pub struct SpecPrograma {
    pub declaraciones: Seq<SpecDeclExterna>,
}

pub enum SpecDeclExterna {
    Funcion(SpecFuncionDef),
    Declaracion(SpecDeclaracion),
}

pub struct SpecFuncionDef {
    pub posicion: Posicion,
    pub especificadores: SpecEspecificadores,
    pub declarador: SpecDeclarador,
    pub cuerpo: SpecBloque,
}

pub struct SpecDeclaracion {
    pub posicion: Posicion,
    pub especificadores: SpecEspecificadores,
    pub declaradores: Seq<SpecInitDeclarador>,
}

pub struct SpecEspecificadores {
    pub almacenamiento: Seq<Almacenamiento>,
    pub calificadores: Seq<Calificador>,
    pub tipo: Option<SpecTipo>,
}

pub enum SpecTipo {
    Primitivo(TipoPrimitivo),
    Puntero { calificadores: Seq<Calificador>, apunta_a: Box<SpecTipo> },
    Array { elemento: Box<SpecTipo>, tamano: Option<Box<SpecExpr>> },
    Funcion { retorno: Box<SpecTipo>, parametros: Seq<SpecParametro> },
    Struct(SpecStructUnion),
    Union(SpecStructUnion),
    Enum(SpecEnum),
    Nombre(Seq<char>),
}

pub struct SpecStructUnion {
    pub nombre: Option<Seq<char>>,
    pub miembros: Seq<SpecDeclaracion>,
}

pub struct SpecEnum {
    pub nombre: Option<Seq<char>>,
    pub enumeradores: Seq<SpecEnumerador>,
}

pub struct SpecEnumerador {
    pub nombre: Seq<char>,
    pub valor: Option<Box<SpecExpr>>,
}

pub struct SpecDeclarador {
    pub punteros: Seq<Seq<Calificador>>,
    pub base: SpecDeclaradorBase,
}

pub enum SpecDeclaradorBase {
    Identificador(Seq<char>),
    Derivado { interno: Box<SpecDeclaradorBase>, sufijo: SpecSufijo },
    Agrupado(Box<SpecDeclarador>),
}

pub enum SpecSufijo {
    Array(Option<Box<SpecExpr>>),
    Funcion(Seq<SpecParametro>),
}

pub struct SpecParametro {
    pub especificadores: SpecEspecificadores,
    pub declarador: Option<SpecDeclarador>,
}

pub struct SpecInitDeclarador {
    pub declarador: SpecDeclarador,
    pub inicializador: Option<SpecInicializador>,
}

pub enum SpecInicializador {
    Expr(Box<SpecExpr>),
    Lista(Seq<SpecInicializador>),
}

pub struct SpecBloque {
    pub posicion: Posicion,
    pub items: Seq<SpecItemBloque>,
}

pub enum SpecItemBloque {
    Declaracion(SpecDeclaracion),
    Sentencia(SpecSentencia),
}

pub enum SpecSentencia {
    Etiquetada { posicion: Posicion, etiqueta: SpecEtiqueta, sentencia: Box<SpecSentencia> },
    Compuesta(SpecBloque),
    Expr { posicion: Posicion, expr: Option<Box<SpecExpr>> },
    Seleccion(SpecSeleccion),
    Iteracion(SpecIteracion),
    Salto(SpecSalto),
}

pub enum SpecEtiqueta {
    Identificador(Seq<char>),
    Case(Box<SpecExpr>),
    Default,
}

pub enum SpecSeleccion {
    If {
        posicion: Posicion,
        condicion: Box<SpecExpr>,
        entonces: Box<SpecSentencia>,
        sino: Option<Box<SpecSentencia>>,
    },
    Switch { posicion: Posicion, condicion: Box<SpecExpr>, cuerpo: Box<SpecSentencia> },
}

pub enum SpecIteracion {
    While { posicion: Posicion, condicion: Box<SpecExpr>, cuerpo: Box<SpecSentencia> },
    DoWhile { posicion: Posicion, cuerpo: Box<SpecSentencia>, condicion: Box<SpecExpr> },
    For {
        posicion: Posicion,
        init: Option<SpecForInit>,
        condicion: Option<Box<SpecExpr>>,
        incremento: Option<Box<SpecExpr>>,
        cuerpo: Box<SpecSentencia>,
    },
}

pub enum SpecForInit {
    Expr(Option<Box<SpecExpr>>),
    Declaracion(SpecDeclaracion),
}

pub enum SpecSalto {
    Goto { posicion: Posicion, etiqueta: Seq<char> },
    Continuar { posicion: Posicion },
    Romper { posicion: Posicion },
    Retornar { posicion: Posicion, valor: Option<Box<SpecExpr>> },
}

pub enum SpecExpr {
    Literal { posicion: Posicion, valor: SpecLiteral },
    Identificador { posicion: Posicion, nombre: Seq<char> },
    Binaria {
        posicion: Posicion,
        operador: OperadorBinario,
        izquierda: Box<SpecExpr>,
        derecha: Box<SpecExpr>,
    },
    Unaria { posicion: Posicion, operador: OperadorUnario, operando: Box<SpecExpr> },
    Ternaria {
        posicion: Posicion,
        condicion: Box<SpecExpr>,
        verdadero: Box<SpecExpr>,
        falso: Box<SpecExpr>,
    },
    Asignacion {
        posicion: Posicion,
        operador: OperadorAsignacion,
        destino: Box<SpecExpr>,
        valor: Box<SpecExpr>,
    },
    Llamada { posicion: Posicion, funcion: Box<SpecExpr>, argumentos: Seq<SpecExpr> },
    Index { posicion: Posicion, arreglo: Box<SpecExpr>, indice: Box<SpecExpr> },
    Miembro { posicion: Posicion, objeto: Box<SpecExpr>, miembro: Seq<char>, es_puntero: bool },
    Cast { posicion: Posicion, tipo: SpecTipo, expr: Box<SpecExpr> },
    Sizeof { posicion: Posicion, es_tipo: bool, objetivo: SpecSizeofObjetivo },
}

pub enum SpecSizeofObjetivo {
    Expr(Box<SpecExpr>),
    Tipo(SpecTipo),
}

pub enum SpecLiteral {
    Entero(Seq<char>),
    Flotante(Seq<char>),
    Caracter(Seq<char>),
    Cadena(Seq<char>),
}

// ---------------------------------------------------------------------------
// From a tree to its model
// ---------------------------------------------------------------------------

pub open spec fn vista_texto_opt(o: Option<String>) -> Option<Seq<char>> {
    match o {
        Some(s) => Some(s@),
        None => None,
    }
}

pub open spec fn vista_programa(p: Programa) -> SpecPrograma {
    SpecPrograma { declaraciones: vista_decls_externas(p.declaraciones@) }
}

pub open spec fn vista_decls_externas(s: Seq<DeclExterna>) -> Seq<SpecDeclExterna>
    decreases s.len(),
{
    if s.len() == 0 {
        Seq::empty()
    } else {
        vista_decls_externas(s.drop_last()).push(vista_decl_externa(s.last()))
    }
}

pub open spec fn vista_decl_externa(d: DeclExterna) -> SpecDeclExterna {
    match d {
        DeclExterna::Funcion(f) => SpecDeclExterna::Funcion(
            SpecFuncionDef {
                posicion: f.posicion,
                especificadores: vista_especificadores(f.especificadores),
                declarador: vista_declarador(f.declarador),
                cuerpo: vista_bloque(f.cuerpo),
            },
        ),
        DeclExterna::Declaracion(d) => SpecDeclExterna::Declaracion(vista_declaracion(d)),
    }
}

pub open spec fn vista_declaracion(d: Declaracion) -> SpecDeclaracion
    decreases d,
{
    SpecDeclaracion {
        posicion: d.posicion,
        especificadores: vista_especificadores(d.especificadores),
        declaradores: vista_init_declaradores(d.declaradores@),
    }
}

pub open spec fn vista_declaraciones(s: Seq<Declaracion>) -> Seq<SpecDeclaracion>
    decreases s,
{
    if s.len() == 0 {
        Seq::empty()
    } else {
        vista_declaraciones(s.drop_last()).push(vista_declaracion(s.last()))
    }
}

pub open spec fn vista_especificadores(e: Especificadores) -> SpecEspecificadores
    decreases e,
{
    SpecEspecificadores {
        almacenamiento: e.almacenamiento@,
        calificadores: e.calificadores@,
        tipo: match e.tipo {
            Some(t) => Some(vista_tipo(t)),
            None => None,
        },
    }
}

pub open spec fn vista_tipo(t: Tipo) -> SpecTipo
    decreases t,
{
    match t {
        Tipo::Primitivo(p) => SpecTipo::Primitivo(p),
        Tipo::Puntero { calificadores, apunta_a } => SpecTipo::Puntero {
            calificadores: calificadores@,
            apunta_a: Box::new(vista_tipo(*apunta_a)),
        },
        Tipo::Array { elemento, tamano } => SpecTipo::Array {
            elemento: Box::new(vista_tipo(*elemento)),
            tamano: vista_expr_opt(tamano),
        },
        Tipo::Funcion { retorno, parametros } => SpecTipo::Funcion {
            retorno: Box::new(vista_tipo(*retorno)),
            parametros: vista_parametros(parametros@),
        },
        Tipo::Struct(s) => SpecTipo::Struct(vista_struct_union(s)),
        Tipo::Union(s) => SpecTipo::Union(vista_struct_union(s)),
        Tipo::Enum(e) => SpecTipo::Enum(vista_enum(e)),
        Tipo::Nombre(n) => SpecTipo::Nombre(n@),
    }
}

pub open spec fn vista_struct_union(s: StructUnionSpec) -> SpecStructUnion
    decreases s,
{
    SpecStructUnion {
        nombre: vista_texto_opt(s.nombre),
        miembros: vista_declaraciones(s.miembros@),
    }
}

pub open spec fn vista_enum(e: EnumSpec) -> SpecEnum
    decreases e,
{
    SpecEnum { nombre: vista_texto_opt(e.nombre), enumeradores: vista_enumeradores(e.enumeradores@) }
}

pub open spec fn vista_enumerador(e: Enumerador) -> SpecEnumerador
    decreases e,
{
    SpecEnumerador { nombre: e.nombre@, valor: vista_expr_opt(e.valor) }
}

pub open spec fn vista_enumeradores(s: Seq<Enumerador>) -> Seq<SpecEnumerador>
    decreases s,
{
    if s.len() == 0 {
        Seq::empty()
    } else {
        vista_enumeradores(s.drop_last()).push(vista_enumerador(s.last()))
    }
}

pub open spec fn vista_punteros(s: Seq<Puntero>) -> Seq<Seq<Calificador>>
    decreases s.len(),
{
    if s.len() == 0 {
        Seq::empty()
    } else {
        vista_punteros(s.drop_last()).push(s.last().calificadores@)
    }
}

pub open spec fn vista_declarador(d: Declarador) -> SpecDeclarador
    decreases d,
{
    SpecDeclarador { punteros: vista_punteros(d.punteros@), base: vista_declarador_base(d.base) }
}

pub open spec fn vista_declarador_base(b: DeclaradorBase) -> SpecDeclaradorBase
    decreases b,
{
    match b {
        DeclaradorBase::Identificador(n) => SpecDeclaradorBase::Identificador(n@),
        DeclaradorBase::Derivado { interno, sufijo } => SpecDeclaradorBase::Derivado {
            interno: Box::new(vista_declarador_base(*interno)),
            sufijo: vista_sufijo(sufijo),
        },
        DeclaradorBase::Agrupado(d) => SpecDeclaradorBase::Agrupado(
            Box::new(vista_declarador(*d)),
        ),
    }
}

pub open spec fn vista_sufijo(s: SufijoDeclarador) -> SpecSufijo
    decreases s,
{
    match s {
        SufijoDeclarador::Array(t) => SpecSufijo::Array(vista_expr_opt(t)),
        SufijoDeclarador::Funcion(ps) => SpecSufijo::Funcion(vista_parametros(ps@)),
    }
}

pub open spec fn vista_parametro(p: Parametro) -> SpecParametro
    decreases p,
{
    SpecParametro {
        especificadores: vista_especificadores(p.especificadores),
        declarador: match p.declarador {
            Some(d) => Some(vista_declarador(d)),
            None => None,
        },
    }
}

pub open spec fn vista_parametros(s: Seq<Parametro>) -> Seq<SpecParametro>
    decreases s,
{
    if s.len() == 0 {
        Seq::empty()
    } else {
        vista_parametros(s.drop_last()).push(vista_parametro(s.last()))
    }
}

pub open spec fn vista_init_declarador(i: InitDeclarador) -> SpecInitDeclarador
    decreases i,
{
    SpecInitDeclarador {
        declarador: vista_declarador(i.declarador),
        inicializador: match i.inicializador {
            Some(ini) => Some(vista_inicializador(ini)),
            None => None,
        },
    }
}

pub open spec fn vista_init_declaradores(s: Seq<InitDeclarador>) -> Seq<SpecInitDeclarador>
    decreases s,
{
    if s.len() == 0 {
        Seq::empty()
    } else {
        vista_init_declaradores(s.drop_last()).push(vista_init_declarador(s.last()))
    }
}

pub open spec fn vista_inicializador(i: Inicializador) -> SpecInicializador
    decreases i,
{
    match i {
        Inicializador::Expr(e) => SpecInicializador::Expr(Box::new(vista_expr(*e))),
        Inicializador::Lista(l) => SpecInicializador::Lista(vista_inicializadores(l@)),
    }
}

pub open spec fn vista_inicializadores(s: Seq<Inicializador>) -> Seq<SpecInicializador>
    decreases s,
{
    if s.len() == 0 {
        Seq::empty()
    } else {
        vista_inicializadores(s.drop_last()).push(vista_inicializador(s.last()))
    }
}

pub open spec fn vista_bloque(b: Bloque) -> SpecBloque
    decreases b,
{
    SpecBloque { posicion: b.posicion, items: vista_items(b.items@) }
}

pub open spec fn vista_item(i: ItemBloque) -> SpecItemBloque
    decreases i,
{
    match i {
        ItemBloque::Declaracion(d) => SpecItemBloque::Declaracion(vista_declaracion(d)),
        ItemBloque::Sentencia(s) => SpecItemBloque::Sentencia(vista_sentencia(s)),
    }
}

pub open spec fn vista_items(s: Seq<ItemBloque>) -> Seq<SpecItemBloque>
    decreases s,
{
    if s.len() == 0 {
        Seq::empty()
    } else {
        vista_items(s.drop_last()).push(vista_item(s.last()))
    }
}

pub open spec fn vista_sentencia(s: Sentencia) -> SpecSentencia
    decreases s,
{
    match s {
        Sentencia::Etiquetada { posicion, etiqueta, sentencia } => SpecSentencia::Etiquetada {
            posicion,
            etiqueta: vista_etiqueta(etiqueta),
            sentencia: Box::new(vista_sentencia(*sentencia)),
        },
        Sentencia::Compuesta(b) => SpecSentencia::Compuesta(vista_bloque(b)),
        Sentencia::Expr { posicion, expr } => SpecSentencia::Expr {
            posicion,
            expr: vista_expr_opt(expr),
        },
        Sentencia::Seleccion(sel) => SpecSentencia::Seleccion(vista_seleccion(sel)),
        Sentencia::Iteracion(it) => SpecSentencia::Iteracion(vista_iteracion(it)),
        Sentencia::Salto(sa) => SpecSentencia::Salto(vista_salto(sa)),
    }
}

pub open spec fn vista_sentencia_opt(o: Option<Box<Sentencia>>) -> Option<Box<SpecSentencia>>
    decreases o,
{
    match o {
        Some(s) => Some(Box::new(vista_sentencia(*s))),
        None => None,
    }
}

pub open spec fn vista_etiqueta(e: Etiqueta) -> SpecEtiqueta
    decreases e,
{
    match e {
        Etiqueta::Identificador(n) => SpecEtiqueta::Identificador(n@),
        Etiqueta::Case(x) => SpecEtiqueta::Case(Box::new(vista_expr(*x))),
        Etiqueta::Default => SpecEtiqueta::Default,
    }
}

pub open spec fn vista_seleccion(s: Seleccion) -> SpecSeleccion
    decreases s,
{
    match s {
        Seleccion::If { posicion, condicion, entonces, sino } => SpecSeleccion::If {
            posicion,
            condicion: Box::new(vista_expr(*condicion)),
            entonces: Box::new(vista_sentencia(*entonces)),
            sino: vista_sentencia_opt(sino),
        },
        Seleccion::Switch { posicion, condicion, cuerpo } => SpecSeleccion::Switch {
            posicion,
            condicion: Box::new(vista_expr(*condicion)),
            cuerpo: Box::new(vista_sentencia(*cuerpo)),
        },
    }
}

pub open spec fn vista_iteracion(i: Iteracion) -> SpecIteracion
    decreases i,
{
    match i {
        Iteracion::While { posicion, condicion, cuerpo } => SpecIteracion::While {
            posicion,
            condicion: Box::new(vista_expr(*condicion)),
            cuerpo: Box::new(vista_sentencia(*cuerpo)),
        },
        Iteracion::DoWhile { posicion, cuerpo, condicion } => SpecIteracion::DoWhile {
            posicion,
            cuerpo: Box::new(vista_sentencia(*cuerpo)),
            condicion: Box::new(vista_expr(*condicion)),
        },
        Iteracion::For { posicion, init, condicion, incremento, cuerpo } => SpecIteracion::For {
            posicion,
            init: match init {
                Some(fi) => Some(vista_for_init(fi)),
                None => None,
            },
            condicion: vista_expr_opt(condicion),
            incremento: vista_expr_opt(incremento),
            cuerpo: Box::new(vista_sentencia(*cuerpo)),
        },
    }
}

pub open spec fn vista_for_init(f: ForInit) -> SpecForInit
    decreases f,
{
    match f {
        ForInit::Expr(e) => SpecForInit::Expr(vista_expr_opt(e)),
        ForInit::Declaracion(d) => SpecForInit::Declaracion(vista_declaracion(d)),
    }
}

pub open spec fn vista_salto(s: Salto) -> SpecSalto
    decreases s,
{
    match s {
        Salto::Goto { posicion, etiqueta } => SpecSalto::Goto { posicion, etiqueta: etiqueta@ },
        Salto::Continuar { posicion } => SpecSalto::Continuar { posicion },
        Salto::Romper { posicion } => SpecSalto::Romper { posicion },
        Salto::Retornar { posicion, valor } => SpecSalto::Retornar {
            posicion,
            valor: vista_expr_opt(valor),
        },
    }
}

pub open spec fn vista_literal(l: Literal) -> SpecLiteral {
    match l {
        Literal::Entero(v) => SpecLiteral::Entero(v@),
        Literal::Flotante(v) => SpecLiteral::Flotante(v@),
        Literal::Caracter(v) => SpecLiteral::Caracter(v@),
        Literal::Cadena(v) => SpecLiteral::Cadena(v@),
    }
}

pub open spec fn vista_expr_opt(o: Option<Box<Expr>>) -> Option<Box<SpecExpr>>
    decreases o,
{
    match o {
        Some(e) => Some(Box::new(vista_expr(*e))),
        None => None,
    }
}

pub open spec fn vista_expr(e: Expr) -> SpecExpr
    decreases e,
{
    match e {
        Expr::Literal { posicion, valor } => SpecExpr::Literal {
            posicion,
            valor: vista_literal(valor),
        },
        Expr::Identificador { posicion, nombre } => SpecExpr::Identificador {
            posicion,
            nombre: nombre@,
        },
        Expr::Binaria { posicion, operador, izquierda, derecha } => SpecExpr::Binaria {
            posicion,
            operador,
            izquierda: Box::new(vista_expr(*izquierda)),
            derecha: Box::new(vista_expr(*derecha)),
        },
        Expr::Unaria { posicion, operador, operando } => SpecExpr::Unaria {
            posicion,
            operador,
            operando: Box::new(vista_expr(*operando)),
        },
        Expr::Ternaria { posicion, condicion, verdadero, falso } => SpecExpr::Ternaria {
            posicion,
            condicion: Box::new(vista_expr(*condicion)),
            verdadero: Box::new(vista_expr(*verdadero)),
            falso: Box::new(vista_expr(*falso)),
        },
        Expr::Asignacion { posicion, operador, destino, valor } => SpecExpr::Asignacion {
            posicion,
            operador,
            destino: Box::new(vista_expr(*destino)),
            valor: Box::new(vista_expr(*valor)),
        },
        Expr::Llamada { posicion, funcion, argumentos } => SpecExpr::Llamada {
            posicion,
            funcion: Box::new(vista_expr(*funcion)),
            argumentos: vista_exprs(argumentos@),
        },
        Expr::Index { posicion, arreglo, indice } => SpecExpr::Index {
            posicion,
            arreglo: Box::new(vista_expr(*arreglo)),
            indice: Box::new(vista_expr(*indice)),
        },
        Expr::Miembro { posicion, objeto, miembro, es_puntero } => SpecExpr::Miembro {
            posicion,
            objeto: Box::new(vista_expr(*objeto)),
            miembro: miembro@,
            es_puntero,
        },
        Expr::Cast { posicion, tipo, expr } => SpecExpr::Cast {
            posicion,
            tipo: vista_tipo(tipo),
            expr: Box::new(vista_expr(*expr)),
        },
        Expr::Sizeof { posicion, es_tipo, objetivo } => SpecExpr::Sizeof {
            posicion,
            es_tipo,
            objetivo: match objetivo {
                SizeofObjetivo::Expr(x) => SpecSizeofObjetivo::Expr(Box::new(vista_expr(*x))),
                SizeofObjetivo::Tipo(t) => SpecSizeofObjetivo::Tipo(vista_tipo(t)),
            },
        },
    }
}

pub open spec fn vista_exprs(s: Seq<Expr>) -> Seq<SpecExpr>
    decreases s,
{
    if s.len() == 0 {
        Seq::empty()
    } else {
        vista_exprs(s.drop_last()).push(vista_expr(s.last()))
    }
}

// ---------------------------------------------------------------------------
// Models of lists grow as the lists do
// ---------------------------------------------------------------------------

/// The model of a list of external declarations has one entry per
/// declaration, its model.
pub proof fn lema_vista_decls_externas(s: Seq<DeclExterna>)
    ensures
        vista_decls_externas(s).len() == s.len(),
        forall|i: int| 0 <= i < s.len() ==> #[trigger] vista_decls_externas(s)[i] == s[i]@,
    decreases s.len(),
{
    if s.len() > 0 {
        lema_vista_decls_externas(s.drop_last());
    }
}

pub proof fn lema_vista_decls_externas_push(s: Seq<DeclExterna>, x: DeclExterna)
    ensures
        vista_decls_externas(s.push(x)) == vista_decls_externas(s).push(vista_decl_externa(x)),
{
    assert(s.push(x).drop_last() =~= s);
}

pub proof fn lema_vista_declaraciones_push(s: Seq<Declaracion>, x: Declaracion)
    ensures
        vista_declaraciones(s.push(x)) == vista_declaraciones(s).push(vista_declaracion(x)),
{
    assert(s.push(x).drop_last() =~= s);
}

pub proof fn lema_vista_enumeradores_push(s: Seq<Enumerador>, x: Enumerador)
    ensures
        vista_enumeradores(s.push(x)) == vista_enumeradores(s).push(vista_enumerador(x)),
{
    assert(s.push(x).drop_last() =~= s);
}

pub proof fn lema_vista_parametros_push(s: Seq<Parametro>, x: Parametro)
    ensures
        vista_parametros(s.push(x)) == vista_parametros(s).push(vista_parametro(x)),
{
    assert(s.push(x).drop_last() =~= s);
}

pub proof fn lema_vista_init_declaradores_push(s: Seq<InitDeclarador>, x: InitDeclarador)
    ensures
        vista_init_declaradores(s.push(x)) == vista_init_declaradores(s).push(vista_init_declarador(x)),
{
    assert(s.push(x).drop_last() =~= s);
}

pub proof fn lema_vista_inicializadores_push(s: Seq<Inicializador>, x: Inicializador)
    ensures
        vista_inicializadores(s.push(x)) == vista_inicializadores(s).push(vista_inicializador(x)),
{
    assert(s.push(x).drop_last() =~= s);
}

pub proof fn lema_vista_items_push(s: Seq<ItemBloque>, x: ItemBloque)
    ensures
        vista_items(s.push(x)) == vista_items(s).push(vista_item(x)),
{
    assert(s.push(x).drop_last() =~= s);
}

pub proof fn lema_vista_exprs_push(s: Seq<Expr>, x: Expr)
    ensures
        vista_exprs(s.push(x)) == vista_exprs(s).push(vista_expr(x)),
{
    assert(s.push(x).drop_last() =~= s);
}

/// The model of a list of pointer levels has one entry per level, the
/// qualifiers of that level.
pub proof fn lema_vista_punteros(s: Seq<Puntero>)
    ensures
        vista_punteros(s).len() == s.len(),
        forall|i: int| 0 <= i < s.len() ==> #[trigger] vista_punteros(s)[i] == s[i]@,
    decreases s.len(),
{
    if s.len() > 0 {
        lema_vista_punteros(s.drop_last());
    }
}

pub proof fn lema_vista_punteros_push(s: Seq<Puntero>, x: Puntero)
    ensures
        vista_punteros(s.push(x)) == vista_punteros(s).push(x.calificadores@),
{
    assert(s.push(x).drop_last() =~= s);
}

// ---------------------------------------------------------------------------
// Views
// ---------------------------------------------------------------------------

/// The model of a function definition.
pub open spec fn vista_funcion(f: FuncionDef) -> SpecFuncionDef {
    SpecFuncionDef {
        posicion: f.posicion,
        especificadores: vista_especificadores(f.especificadores),
        declarador: vista_declarador(f.declarador),
        cuerpo: vista_bloque(f.cuerpo),
    }
}

impl View for FuncionDef {
    type V = SpecFuncionDef;

    open spec fn view(&self) -> SpecFuncionDef {
        vista_funcion(*self)
    }
}

impl View for SizeofObjetivo {
    type V = SpecSizeofObjetivo;

    open spec fn view(&self) -> SpecSizeofObjetivo {
        match *self {
            SizeofObjetivo::Expr(x) => SpecSizeofObjetivo::Expr(Box::new(vista_expr(*x))),
            SizeofObjetivo::Tipo(t) => SpecSizeofObjetivo::Tipo(vista_tipo(t)),
        }
    }
}

impl View for Programa {
    type V = SpecPrograma;

    open spec fn view(&self) -> SpecPrograma {
        vista_programa(*self)
    }
}

impl View for DeclExterna {
    type V = SpecDeclExterna;

    open spec fn view(&self) -> SpecDeclExterna {
        vista_decl_externa(*self)
    }
}

impl View for Declaracion {
    type V = SpecDeclaracion;

    open spec fn view(&self) -> SpecDeclaracion {
        vista_declaracion(*self)
    }
}

impl View for Especificadores {
    type V = SpecEspecificadores;

    open spec fn view(&self) -> SpecEspecificadores {
        vista_especificadores(*self)
    }
}

impl View for Tipo {
    type V = SpecTipo;

    open spec fn view(&self) -> SpecTipo {
        vista_tipo(*self)
    }
}

impl View for StructUnionSpec {
    type V = SpecStructUnion;

    open spec fn view(&self) -> SpecStructUnion {
        vista_struct_union(*self)
    }
}

impl View for EnumSpec {
    type V = SpecEnum;

    open spec fn view(&self) -> SpecEnum {
        vista_enum(*self)
    }
}

impl View for Enumerador {
    type V = SpecEnumerador;

    open spec fn view(&self) -> SpecEnumerador {
        vista_enumerador(*self)
    }
}

impl View for Declarador {
    type V = SpecDeclarador;

    open spec fn view(&self) -> SpecDeclarador {
        vista_declarador(*self)
    }
}

impl View for DeclaradorBase {
    type V = SpecDeclaradorBase;

    open spec fn view(&self) -> SpecDeclaradorBase {
        vista_declarador_base(*self)
    }
}

impl View for SufijoDeclarador {
    type V = SpecSufijo;

    open spec fn view(&self) -> SpecSufijo {
        vista_sufijo(*self)
    }
}

impl View for Parametro {
    type V = SpecParametro;

    open spec fn view(&self) -> SpecParametro {
        vista_parametro(*self)
    }
}

impl View for InitDeclarador {
    type V = SpecInitDeclarador;

    open spec fn view(&self) -> SpecInitDeclarador {
        vista_init_declarador(*self)
    }
}

impl View for Inicializador {
    type V = SpecInicializador;

    open spec fn view(&self) -> SpecInicializador {
        vista_inicializador(*self)
    }
}

impl View for Bloque {
    type V = SpecBloque;

    open spec fn view(&self) -> SpecBloque {
        vista_bloque(*self)
    }
}

impl View for ItemBloque {
    type V = SpecItemBloque;

    open spec fn view(&self) -> SpecItemBloque {
        vista_item(*self)
    }
}

impl View for Sentencia {
    type V = SpecSentencia;

    open spec fn view(&self) -> SpecSentencia {
        vista_sentencia(*self)
    }
}

impl View for Etiqueta {
    type V = SpecEtiqueta;

    open spec fn view(&self) -> SpecEtiqueta {
        vista_etiqueta(*self)
    }
}

impl View for Seleccion {
    type V = SpecSeleccion;

    open spec fn view(&self) -> SpecSeleccion {
        vista_seleccion(*self)
    }
}

impl View for Iteracion {
    type V = SpecIteracion;

    open spec fn view(&self) -> SpecIteracion {
        vista_iteracion(*self)
    }
}

impl View for ForInit {
    type V = SpecForInit;

    open spec fn view(&self) -> SpecForInit {
        vista_for_init(*self)
    }
}

impl View for Salto {
    type V = SpecSalto;

    open spec fn view(&self) -> SpecSalto {
        vista_salto(*self)
    }
}

impl View for Expr {
    type V = SpecExpr;

    open spec fn view(&self) -> SpecExpr {
        vista_expr(*self)
    }
}

impl View for Literal {
    type V = SpecLiteral;

    open spec fn view(&self) -> SpecLiteral {
        vista_literal(*self)
    }
}

impl View for Puntero {
    type V = Seq<Calificador>;

    open spec fn view(&self) -> Seq<Calificador> {
        self.calificadores@
    }
}

} // verus!
