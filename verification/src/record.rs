//! Declaration records and how they are printed.

use vstd::prelude::*;
use vstd::string::StringExecFns;
use crate::syntax::optional_text;
use crate::text::{join, joined, texts};

verus! {

/// The kind of a nominal type declaration.
#[derive(Debug, Clone, Copy, PartialEq, Eq, Structural)]
pub enum TypeKind {
    Struct,
    Enum,
}

/// The value of a function record.
pub struct FunctionDeclaration {
    pub name: Seq<char>,
    pub is_async: bool,
    pub parameters: Seq<Seq<char>>,
    pub return_type: Seq<char>,
    pub visibility: Option<Seq<char>>,
}

/// The value of a type record.
pub struct TypeDeclaration {
    pub name: Seq<char>,
    pub kind: TypeKind,
    pub visibility: Option<Seq<char>>,
}

/// The value of a declaration record.
pub enum DeclarationRecord {
    Function(FunctionDeclaration),
    Type(TypeDeclaration),
}

impl DeclarationRecord {
    /// The declared name.
    pub open spec fn name(self) -> Seq<char> {
        match self {
            DeclarationRecord::Function(function) => function.name,
            DeclarationRecord::Type(ty) => ty.name,
        }
    }

    /// The recorded visibility.
    pub open spec fn visibility(self) -> Option<Seq<char>> {
        match self {
            DeclarationRecord::Function(function) => function.visibility,
            DeclarationRecord::Type(ty) => ty.visibility,
        }
    }

    /// A record is valid when it has a name and its visibility, where it has
    /// one, is not the empty text.
    pub open spec fn wf(self) -> bool {
        &&& self.name().len() > 0
        &&& self.visibility() != Some(Seq::<char>::empty())
    }
}

/// The text printed for a visibility: the qualifier, or `private` where the
/// declaration has none.
pub open spec fn shown_visibility(visibility: Option<Seq<char>>) -> Seq<char> {
    match visibility {
        Some(qualifier) => qualifier,
        None => "private"@,
    }
}

/// The keyword printed for a kind of type.
pub open spec fn kind_keyword(kind: TypeKind) -> Seq<char> {
    match kind {
        TypeKind::Struct => "struct"@,
        TypeKind::Enum => "enum"@,
    }
}

/// The line printed for a function record:
/// `<visibility> [async ]fn <name>(<parameters>) -> <return type>`.
pub open spec fn function_line(function: FunctionDeclaration) -> Seq<char> {
    shown_visibility(function.visibility) + " "@ + (if function.is_async {
        "async "@
    } else {
        Seq::empty()
    }) + "fn "@ + function.name + "("@ + joined(function.parameters, ", "@) + ") -> "@
        + function.return_type
}

/// The line printed for a type record: `<visibility> <kind> <name>`.
pub open spec fn type_line(ty: TypeDeclaration) -> Seq<char> {
    shown_visibility(ty.visibility) + " "@ + kind_keyword(ty.kind) + " "@ + ty.name
}

/// A record without a visibility is printed as `private`: its line begins
/// with that word and a space, whatever else the record holds.
pub proof fn law_absent_visibility_prints_private(function: FunctionDeclaration, ty: TypeDeclaration)
    requires
        function.visibility is None,
        ty.visibility is None,
    ensures
        "private "@.is_prefix_of(function_line(function)),
        "private "@.is_prefix_of(type_line(ty)),
{
    reveal_strlit("private");
    reveal_strlit(" ");
    reveal_strlit("private ");
    let word = "private "@;
    assert(word =~= "private"@ + " "@);
    assert(function_line(function).subrange(0, word.len() as int) =~= word);
    assert(type_line(ty).subrange(0, word.len() as int) =~= word);
}

/// A function record.
#[derive(Debug, Clone, PartialEq, Eq)]
pub struct FunctionInfo {
    name: String,
    is_async: bool,
    parameters: Vec<String>,
    return_type: String,
    visibility: Option<String>,
}

/// A type record.
#[derive(Debug, Clone, PartialEq, Eq)]
pub struct TypeInfo {
    name: String,
    kind: TypeKind,
    visibility: Option<String>,
}

/// A declaration record.
#[derive(Debug, Clone, PartialEq, Eq)]
pub enum Declaration {
    Function(FunctionInfo),
    Type(TypeInfo),
}

fn shown(visibility: &Option<String>) -> (text: String)
    ensures
        text@ == shown_visibility(optional_text(*visibility)),
{
    match visibility {
        Some(qualifier) => qualifier.clone(),
        None => String::from_str("private"),
    }
}

impl View for FunctionInfo {
    type V = FunctionDeclaration;

    closed spec fn view(&self) -> FunctionDeclaration {
        FunctionDeclaration {
            name: self.name@,
            is_async: self.is_async,
            parameters: texts(self.parameters@),
            return_type: self.return_type@,
            visibility: optional_text(self.visibility),
        }
    }
}

impl FunctionInfo {
    /// A record with the given values.
    pub fn new(
        name: String,
        is_async: bool,
        parameters: Vec<String>,
        return_type: String,
        visibility: Option<String>,
    ) -> (info: FunctionInfo)
        ensures
            info@ == (FunctionDeclaration {
                name: name@,
                is_async,
                parameters: texts(parameters@),
                return_type: return_type@,
                visibility: optional_text(visibility),
            }),
    {
        FunctionInfo { name, is_async, parameters, return_type, visibility }
    }

    /// The declared identifier.
    pub fn name(&self) -> (name: &String)
        ensures
            name@ == self@.name,
    {
        &self.name
    }

    /// Whether the declaration is marked `async`.
    pub fn is_async(&self) -> (is_async: bool)
        ensures
            is_async == self@.is_async,
    {
        self.is_async
    }

    /// The rendering of each formal parameter, in declaration order.
    pub fn parameters(&self) -> (parameters: &Vec<String>)
        ensures
            texts(parameters@) == self@.parameters,
    {
        &self.parameters
    }

    /// The rendering of the return type.
    pub fn return_type(&self) -> (return_type: &String)
        ensures
            return_type@ == self@.return_type,
    {
        &self.return_type
    }

    /// The rendering of the visibility qualifier, if the declaration has one.
    pub fn visibility(&self) -> (visibility: &Option<String>)
        ensures
            optional_text(*visibility) == self@.visibility,
    {
        &self.visibility
    }

    /// The line that reports this record.
    pub fn render(&self) -> (line: String)
        ensures
            line@ == function_line(self@),
    {
        let mut line = shown(&self.visibility);
        line.append(" ");
        if self.is_async {
            line.append("async ");
        }
        line.append("fn ");
        line.append(self.name.as_str());
        line.append("(");
        let inputs = join(&self.parameters, ", ");
        line.append(inputs.as_str());
        line.append(") -> ");
        line.append(self.return_type.as_str());
        line
    }
}

impl View for TypeInfo {
    type V = TypeDeclaration;

    closed spec fn view(&self) -> TypeDeclaration {
        TypeDeclaration {
            name: self.name@,
            kind: self.kind,
            visibility: optional_text(self.visibility),
        }
    }
}

impl TypeInfo {
    /// A record with the given values.
    pub fn new(name: String, kind: TypeKind, visibility: Option<String>) -> (info: TypeInfo)
        ensures
            info@ == (TypeDeclaration {
                name: name@,
                kind,
                visibility: optional_text(visibility),
            }),
    {
        TypeInfo { name, kind, visibility }
    }

    /// The declared identifier.
    pub fn name(&self) -> (name: &String)
        ensures
            name@ == self@.name,
    {
        &self.name
    }

    /// Whether the declaration is a struct or an enum.
    pub fn kind(&self) -> (kind: TypeKind)
        ensures
            kind == self@.kind,
    {
        self.kind
    }

    /// The rendering of the visibility qualifier, if the declaration has one.
    pub fn visibility(&self) -> (visibility: &Option<String>)
        ensures
            optional_text(*visibility) == self@.visibility,
    {
        &self.visibility
    }

    /// The line that reports this record.
    pub fn render(&self) -> (line: String)
        ensures
            line@ == type_line(self@),
    {
        let mut line = shown(&self.visibility);
        line.append(" ");
        match self.kind {
            TypeKind::Struct => line.append("struct"),
            TypeKind::Enum => line.append("enum"),
        }
        line.append(" ");
        line.append(self.name.as_str());
        line
    }
}

impl View for Declaration {
    type V = DeclarationRecord;

    open spec fn view(&self) -> DeclarationRecord {
        match self {
            Declaration::Function(info) => DeclarationRecord::Function(info@),
            Declaration::Type(info) => DeclarationRecord::Type(info@),
        }
    }
}

/// The values of a list of records, in order.
pub open spec fn record_values(records: Seq<Declaration>) -> Seq<DeclarationRecord> {
    Seq::new(records.len(), |i: int| records[i]@)
}

} // verus!
