//! The shader frontend: from a shader description to what the HLSL compiler
//! is asked, and from the compiler's answer to the library's result.

use crate::shader_module::{ShaderDesc, ShaderKind, ShaderSource};
use crate::text::{first_nul, nul_position};
use crate::Error;
use hassle_rs::HassleError;
use vstd::prelude::*;

verus! {

/// The target profile of each shader stage.
pub open spec fn target_profile(stage: ShaderKind) -> Seq<char> {
    match stage {
        ShaderKind::Vertex => "vs_6_7"@,
        ShaderKind::Task => "as_6_7"@,
        ShaderKind::Mesh => "ms_6_7"@,
        ShaderKind::Fragment => "ps_6_7"@,
        ShaderKind::Compute => "cs_6_7"@,
    }
}

/// The target profile that a shader of the given stage is compiled for.
pub fn get_target(stage: ShaderKind) -> (profile: &'static str)
    ensures
        profile@ == target_profile(stage),
{
    match stage {
        ShaderKind::Vertex => "vs_6_7",
        ShaderKind::Task => "as_6_7",
        ShaderKind::Mesh => "ms_6_7",
        ShaderKind::Fragment => "ps_6_7",
        ShaderKind::Compute => "cs_6_7",
    }
}

/// The compiler's arguments: the language version, and for SPIR-V output the
/// output format and its target environment.
pub open spec fn compiler_arguments(spirv: bool) -> Seq<Seq<char>> {
    if spirv {
        seq!["-HV 2021"@, "-spirv"@, "-fspv-target-env=vulkan1.3"@]
    } else {
        seq!["-HV 2021"@]
    }
}

/// A define as plain text: its name and, where it has one, its value.
pub open spec fn define_text(define: (String, Option<String>)) -> (Seq<char>, Option<Seq<char>>) {
    (
        define.0@,
        match define.1 {
            Some(value) => Some(value@),
            None => None,
        },
    )
}

/// A borrowed define as plain text.
pub open spec fn borrowed_define_text(define: (&str, Option<&str>)) -> (
    Seq<char>,
    Option<Seq<char>>,
) {
    (
        define.0@,
        match define.1 {
            Some(value) => Some(value@),
            None => None,
        },
    )
}

/// Where the first NUL character of a define stands: in its name, or else in
/// its value.
pub open spec fn define_nul(define: (Seq<char>, Option<Seq<char>>)) -> Option<int> {
    if first_nul(define.0) is Some {
        first_nul(define.0)
    } else {
        match define.1 {
            Some(value) => first_nul(value),
            None => None,
        }
    }
}

/// Where the first NUL character of the first define that holds one stands.
pub open spec fn defines_nul(defines: Seq<(Seq<char>, Option<Seq<char>>)>) -> Option<int>
    decreases defines.len(),
{
    if defines.len() == 0 {
        None
    } else if define_nul(defines[0]) is Some {
        define_nul(defines[0])
    } else {
        defines_nul(defines.drop_first())
    }
}

/// Everything the compiler is asked in one call.
pub struct CompileRequest<'a> {
    pub source_name: &'a str,
    pub shader_text: &'a str,
    pub entry_point: &'a str,
    pub target_profile: &'static str,
    pub args: Vec<&'static str>,
    pub defines: Vec<(&'a str, Option<&'a str>)>,
}

impl<'a> CompileRequest<'a> {
    /// The arguments as plain text.
    pub open spec fn args_text(&self) -> Seq<Seq<char>> {
        self.args@.map_values(|arg: &'static str| arg@)
    }

    /// The defines as plain text.
    pub open spec fn defines_text(&self) -> Seq<(Seq<char>, Option<Seq<char>>)> {
        self.defines@.map_values(|define: (&'a str, Option<&'a str>)| borrowed_define_text(define))
    }

    /// No string that the compiler takes as terminated holds a NUL character.
    pub open spec fn terminated(&self) -> bool {
        &&& first_nul(self.source_name@) is None
        &&& first_nul(self.entry_point@) is None
        &&& first_nul(self.target_profile@) is None
        &&& forall|i: int|
            0 <= i < self.args_text().len() ==> first_nul(#[trigger] self.args_text()[i]) is None
        &&& forall|i: int|
            0 <= i < self.defines_text().len() ==> define_nul(
                #[trigger] self.defines_text()[i],
            ) is None
    }
}

/// None of the strings that the library itself hands to the compiler holds a
/// NUL character.
proof fn lemma_constants_terminated()
    ensures
        forall|stage: ShaderKind| first_nul(#[trigger] target_profile(stage)) is None,
        forall|spirv: bool, i: int|
            0 <= i < compiler_arguments(spirv).len() ==> first_nul(
                #[trigger] compiler_arguments(spirv)[i],
            ) is None,
{
    reveal_strlit("vs_6_7");
    reveal_strlit("as_6_7");
    reveal_strlit("ms_6_7");
    reveal_strlit("ps_6_7");
    reveal_strlit("cs_6_7");
    reveal_strlit("-HV 2021");
    reveal_strlit("-spirv");
    reveal_strlit("-fspv-target-env=vulkan1.3");
}

/// Where the first NUL character stands among the strings of a description
/// that the compiler takes as terminated: the name, then the entry point,
/// then the defines in their order.
pub open spec fn description_nul(desc: &ShaderDesc) -> Option<int> {
    if first_nul(desc.name@) is Some {
        first_nul(desc.name@)
    } else if first_nul(desc.entry_point@) is Some {
        first_nul(desc.entry_point@)
    } else {
        match desc.source {
            ShaderSource::Hlsl { source, defines } => defines_nul(
                defines@.map_values(|define: (String, Option<String>)| define_text(define)),
            ),
        }
    }
}

/// The arguments for the compiler.
fn compiler_args(spirv: bool) -> (args: Vec<&'static str>)
    ensures
        args@.map_values(|arg: &'static str| arg@) == compiler_arguments(spirv),
{
    let mut args: Vec<&'static str> = Vec::new();
    args.push("-HV 2021");
    if spirv {
        args.push("-spirv");
        args.push("-fspv-target-env=vulkan1.3");
    }
    args
}

/// The defines of a description, borrowed for the compiler, unless one of
/// them holds a NUL character.
fn borrow_defines<'a>(defines: &'a Vec<(String, Option<String>)>) -> (borrowed: Result<
    Vec<(&'a str, Option<&'a str>)>,
    usize,
>)
    ensures
        match borrowed {
            Ok(list) => {
                &&& defines_nul(
                    defines@.map_values(|define: (String, Option<String>)| define_text(define)),
                ) is None
                &&& list@.map_values(
                    |define: (&'a str, Option<&'a str>)| borrowed_define_text(define),
                ) == defines@.map_values(|define: (String, Option<String>)| define_text(define))
            },
            Err(position) => defines_nul(
                defines@.map_values(|define: (String, Option<String>)| define_text(define)),
            ) == Some(position as int),
        },
{
    let ghost texts = defines@.map_values(|define: (String, Option<String>)| define_text(define));
    let mut list: Vec<(&'a str, Option<&'a str>)> = Vec::new();
    let mut i: usize = 0;
    proof {
        assert(texts.subrange(0, texts.len() as int) =~= texts);
    }
    while i < defines.len()
        invariant
            i <= defines.len(),
            list.len() == i,
            texts == defines@.map_values(|define: (String, Option<String>)| define_text(define)),
            list@.map_values(|define: (&'a str, Option<&'a str>)| borrowed_define_text(define))
                == texts.subrange(0, i as int),
            defines_nul(texts) == defines_nul(texts.subrange(i as int, texts.len() as int)),
        decreases defines.len() - i,
    {
        let ghost rest = texts.subrange(i as int, texts.len() as int);
        proof {
            assert(rest.drop_first() =~= texts.subrange(i + 1, texts.len() as int));
        }
        let name: &'a str = defines[i].0.as_str();
        if let Some(position) = nul_position(name) {
            return Err(position);
        }
        let value: Option<&'a str> = match &defines[i].1 {
            Some(value) => {
                if let Some(position) = nul_position(value.as_str()) {
                    return Err(position);
                }
                Some(value.as_str())
            },
            None => None,
        };
        list.push((name, value));
        i += 1;
    }
    Ok(list)
}

/// What the compiler is asked for a description: its strings, the target
/// profile of its stage, and the arguments for the output format.
///
/// A description with a NUL character in its name, its entry point or a
/// define is refused, with the position of the first one.
pub fn compile_request<'a>(desc: &'a ShaderDesc, spirv: bool) -> (request: Result<
    CompileRequest<'a>,
    Error,
>)
    ensures
        match request {
            Ok(request) => {
                &&& description_nul(desc) is None
                &&& request.terminated()
                &&& request.source_name@ == desc.name@
                &&& request.entry_point@ == desc.entry_point@
                &&& request.target_profile@ == target_profile(desc.kind)
                &&& request.args_text() == compiler_arguments(spirv)
                &&& desc.source matches ShaderSource::Hlsl { source, defines }
                    && request.shader_text@ == source@ && request.defines_text()
                    == defines@.map_values(|define: (String, Option<String>)| define_text(define))
            },
            Err(error) => exists|position: usize|
                error == Error::NulError(position) && description_nul(desc) == Some(
                    position as int,
                ),
        },
{
    if let Some(position) = nul_position(desc.name.as_str()) {
        return Err(Error::NulError(position));
    }
    if let Some(position) = nul_position(desc.entry_point.as_str()) {
        return Err(Error::NulError(position));
    }
    match &desc.source {
        ShaderSource::Hlsl { source, defines } => {
            let borrowed = match borrow_defines(defines) {
                Ok(list) => list,
                Err(position) => {
                    return Err(Error::NulError(position));
                },
            };
            let request = CompileRequest {
                source_name: desc.name.as_str(),
                shader_text: source.as_str(),
                entry_point: desc.entry_point.as_str(),
                target_profile: get_target(desc.kind),
                args: compiler_args(spirv),
                defines: borrowed,
            };
            proof {
                lemma_constants_terminated();
                lemma_defines_terminated(request.defines_text());
            }
            Ok(request)
        },
    }
}

/// Where no define of a list holds a NUL character, none of them does.
proof fn lemma_defines_terminated(defines: Seq<(Seq<char>, Option<Seq<char>>)>)
    requires
        defines_nul(defines) is None,
    ensures
        forall|i: int| 0 <= i < defines.len() ==> define_nul(#[trigger] defines[i]) is None,
    decreases defines.len(),
{
    if defines.len() > 0 {
        lemma_defines_terminated(defines.drop_first());
        assert forall|i: int| 0 <= i < defines.len() implies define_nul(
            #[trigger] defines[i],
        ) is None by {
            if i > 0 {
                assert(defines[i] == defines.drop_first()[i - 1]);
            }
        }
    }
}

/// `hassle_rs::compile_hlsl`: compiles the text with the DirectX shader
/// compiler that it loads from the machine's library path.
///
/// Nothing is claimed of the result: it depends on the compiler that is
/// installed and on the files that the text includes. The call panics on a
/// string with a NUL character inside, which the precondition leaves out.
#[verifier::external_body]
fn dxc_compile(request: &CompileRequest<'_>) -> (outcome: Result<Vec<u8>, HassleError>)
    requires
        request.terminated(),
{
    hassle_rs::compile_hlsl(
        request.source_name,
        request.shader_text,
        request.entry_point,
        request.target_profile,
        &request.args,
        &request.defines,
    )
}

/// The library's result for what the compiler answered: the bytecode as it
/// is, or the compiler's error as it is.
pub fn compile_outcome(outcome: Result<Vec<u8>, HassleError>) -> (result: Result<Vec<u8>, Error>)
    ensures
        match outcome {
            Ok(bytecode) => result == Ok::<Vec<u8>, Error>(bytecode),
            Err(error) => result == Err::<Vec<u8>, Error>(Error::HassleRs(error)),
        },
{
    match outcome {
        Ok(bytecode) => Ok(bytecode),
        Err(error) => Err(Error::HassleRs(error)),
    }
}

/// Compiles a shader description to intermediate bytecode: SPIR-V where
/// `spirv` is set, DXIL where it is not.
///
/// A description with a NUL character in its name, its entry point or a
/// define is refused before the compiler is called. Otherwise the compiler
/// decides: the result is its bytecode or its error.
pub fn compile_hlsl(desc: &ShaderDesc, spirv: bool) -> (result: Result<Vec<u8>, Error>)
    ensures
        description_nul(desc) matches Some(position) ==> exists|at: usize|
            result == Err::<Vec<u8>, Error>(Error::NulError(at)) && at == position,
        description_nul(desc) is None ==> (result is Ok || result matches Err(Error::HassleRs(_))),
{
    let request = match compile_request(desc, spirv) {
        Ok(request) => request,
        Err(error) => {
            return Err(error);
        },
    };
    compile_outcome(dxc_compile(&request))
}

} // verus!
