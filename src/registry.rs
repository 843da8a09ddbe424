use vstd::prelude::*;

verus! {

/// The tools the model may call: a closed set, each known by a unique name.
#[derive(Clone, Copy, Debug, PartialEq, Eq, Structural)]
pub enum ToolKind {
    SummarizeRustCode,
    SummarizeJsOrTsCode,
    SummarizePythonCode,
    CreateFile,
    CreateDirectory,
    WriteToFile,
    GatherDirectoryContext,
    ReadFile,
}

/// What a parameter holds.
#[derive(Clone, Copy, Debug, PartialEq, Eq, Structural)]
pub enum ParamType {
    Path,
    Text,
}

/// One parameter of a tool's schema.
pub struct ParamSpec {
    pub name: String,
    pub param_type: ParamType,
    pub required: bool,
}

impl View for ParamSpec {
    type V = (Seq<char>, ParamType, bool);

    open spec fn view(&self) -> Self::V {
        (self.name@, self.param_type, self.required)
    }
}

/// Why the arguments of a tool call could not be bound to its parameters.
#[derive(Debug)]
pub enum ArgumentError {
    /// A required parameter was given no value.
    Missing { name: String },
}

/// Every tool of the registry, in the order they are offered to the model.
pub open spec fn all_tools() -> Seq<ToolKind> {
    seq![
        ToolKind::SummarizeRustCode,
        ToolKind::SummarizeJsOrTsCode,
        ToolKind::SummarizePythonCode,
        ToolKind::CreateFile,
        ToolKind::CreateDirectory,
        ToolKind::WriteToFile,
        ToolKind::GatherDirectoryContext,
        ToolKind::ReadFile,
    ]
}

pub open spec fn tool_name(k: ToolKind) -> Seq<char> {
    match k {
        ToolKind::SummarizeRustCode => "summarize_rust_code"@,
        ToolKind::SummarizeJsOrTsCode => "summarize_js_or_ts_code"@,
        ToolKind::SummarizePythonCode => "summarize_python_code"@,
        ToolKind::CreateFile => "create_file"@,
        ToolKind::CreateDirectory => "create_directory"@,
        ToolKind::WriteToFile => "write_to_file"@,
        ToolKind::GatherDirectoryContext => "gather_directory_context"@,
        ToolKind::ReadFile => "read_file"@,
    }
}

pub open spec fn tool_description(k: ToolKind) -> Seq<char> {
    match k {
        ToolKind::SummarizeRustCode => "Summarizes the top-level functions of a Rust source file."@,
        ToolKind::SummarizeJsOrTsCode => "Summarizes the top-level functions of a JavaScript or TypeScript source file; a .ts file is read as TypeScript."@,
        ToolKind::SummarizePythonCode => "Summarizes the top-level functions of a Python source file."@,
        ToolKind::CreateFile => "Creates a file at the given path, writing the optional content into it; does nothing if it already exists."@,
        ToolKind::CreateDirectory => "Creates a directory at the given path, with its missing parents; does nothing if it already exists."@,
        ToolKind::WriteToFile => "Replaces the content of the file at the given path; its parent directory must exist."@,
        ToolKind::GatherDirectoryContext => "Lists the directories and files below a directory (the current one by default) as JSON."@,
        ToolKind::ReadFile => "Reads the contents of the file at the given path."@,
    }
}

pub open spec fn tool_params(k: ToolKind) -> Seq<(Seq<char>, ParamType, bool)> {
    match k {
        ToolKind::SummarizeRustCode | ToolKind::SummarizeJsOrTsCode | ToolKind::SummarizePythonCode => seq![
            ("file_path"@, ParamType::Path, true),
        ],
        ToolKind::CreateFile => seq![("path"@, ParamType::Path, true), ("content"@, ParamType::Text, false)],
        ToolKind::WriteToFile => seq![("path"@, ParamType::Path, true), ("content"@, ParamType::Text, true)],
        ToolKind::GatherDirectoryContext => seq![("path"@, ParamType::Path, false)],
        ToolKind::CreateDirectory | ToolKind::ReadFile => seq![("path"@, ParamType::Path, true)],
    }
}

fn param(name: &str, param_type: ParamType, required: bool) -> (r: ParamSpec)
    ensures
        r@ == (name@, param_type, required),
{
    ParamSpec { name: String::from_str(name), param_type, required }
}

/// The value of the first argument named `name`.
pub open spec fn lookup(args: Seq<(Seq<char>, Seq<char>)>, name: Seq<char>) -> Option<Seq<char>>
    decreases args.len(),
{
    if args.len() == 0 {
        None
    } else if args[0].0 == name {
        Some(args[0].1)
    } else {
        lookup(args.drop_first(), name)
    }
}

/// The values of `params` in order, an absent optional one as the empty
/// text; or the name of the first required one that `args` lacks.
pub open spec fn bound(params: Seq<(Seq<char>, ParamType, bool)>, args: Seq<(Seq<char>, Seq<char>)>) -> Result<Seq<Seq<char>>, Seq<char>>
    decreases params.len(),
{
    if params.len() == 0 {
        Ok(Seq::empty())
    } else {
        let p = params.last();
        match bound(params.drop_last(), args) {
            Err(e) => Err(e),
            Ok(values) => match lookup(args, p.0) {
                Some(v) => Ok(values.push(v)),
                None => if p.2 {
                    Err(p.0)
                } else {
                    Ok(values.push(Seq::empty()))
                },
            },
        }
    }
}

pub open spec fn arg_views(args: Seq<(String, String)>) -> Seq<(Seq<char>, Seq<char>)> {
    args.map_values(|a: (String, String)| (a.0@, a.1@))
}

/// Finds the value of the first argument named `name`.
pub fn find_argument(args: &Vec<(String, String)>, name: &String) -> (r: Option<String>)
    ensures
        match r {
            Some(v) => lookup(arg_views(args@), name@) == Some(v@),
            None => lookup(arg_views(args@), name@) is None,
        },
{
    let mut i: usize = 0;
    assert(arg_views(args@).skip(0) =~= arg_views(args@));
    while i < args.len()
        invariant
            i <= args@.len(),
            lookup(arg_views(args@), name@) == lookup(arg_views(args@).skip(i as int), name@),
        decreases args@.len() - i,
    {
        proof {
            let rest = arg_views(args@).skip(i as int);
            assert(rest.drop_first() =~= arg_views(args@).skip(i as int + 1));
        }
        if args[i].0 == *name {
            return Some(args[i].1.clone());
        }
        i = i + 1;
    }
    None
}

impl ToolKind {
    /// The name the model calls the tool by.
    pub fn name(&self) -> (r: String)
        ensures
            r@ == tool_name(*self),
    {
        match self {
            ToolKind::SummarizeRustCode => String::from_str("summarize_rust_code"),
            ToolKind::SummarizeJsOrTsCode => String::from_str("summarize_js_or_ts_code"),
            ToolKind::SummarizePythonCode => String::from_str("summarize_python_code"),
            ToolKind::CreateFile => String::from_str("create_file"),
            ToolKind::CreateDirectory => String::from_str("create_directory"),
            ToolKind::WriteToFile => String::from_str("write_to_file"),
            ToolKind::GatherDirectoryContext => String::from_str("gather_directory_context"),
            ToolKind::ReadFile => String::from_str("read_file"),
        }
    }

    /// What the tool does, for the model to choose by.
    pub fn description(&self) -> (r: String)
        ensures
            r@ == tool_description(*self),
    {
        match self {
            ToolKind::SummarizeRustCode => String::from_str("Summarizes the top-level functions of a Rust source file."),
            ToolKind::SummarizeJsOrTsCode => String::from_str("Summarizes the top-level functions of a JavaScript or TypeScript source file; a .ts file is read as TypeScript."),
            ToolKind::SummarizePythonCode => String::from_str("Summarizes the top-level functions of a Python source file."),
            ToolKind::CreateFile => String::from_str("Creates a file at the given path, writing the optional content into it; does nothing if it already exists."),
            ToolKind::CreateDirectory => String::from_str("Creates a directory at the given path, with its missing parents; does nothing if it already exists."),
            ToolKind::WriteToFile => String::from_str("Replaces the content of the file at the given path; its parent directory must exist."),
            ToolKind::GatherDirectoryContext => String::from_str("Lists the directories and files below a directory (the current one by default) as JSON."),
            ToolKind::ReadFile => String::from_str("Reads the contents of the file at the given path."),
        }
    }

    /// The tool's parameters, in order.
    pub fn parameters(&self) -> (r: Vec<ParamSpec>)
        ensures
            r@.map_values(|p: ParamSpec| p@) == tool_params(*self),
    {
        let r = match self {
            ToolKind::SummarizeRustCode | ToolKind::SummarizeJsOrTsCode | ToolKind::SummarizePythonCode => vec![
                param("file_path", ParamType::Path, true),
            ],
            ToolKind::CreateFile => vec![param("path", ParamType::Path, true), param("content", ParamType::Text, false)],
            ToolKind::WriteToFile => vec![param("path", ParamType::Path, true), param("content", ParamType::Text, true)],
            ToolKind::GatherDirectoryContext => vec![param("path", ParamType::Path, false)],
            ToolKind::CreateDirectory | ToolKind::ReadFile => vec![param("path", ParamType::Path, true)],
        };
        assert(r@.map_values(|p: ParamSpec| p@) =~= tool_params(*self));
        r
    }

    /// The tool that the model calls `name`, if any: unknown names are an
    /// error of dispatch, not of a tool.
    pub fn from_name(name: &str) -> (r: Option<ToolKind>)
        ensures
            match r {
                Some(k) => tool_name(k) == name@,
                None => forall|k: ToolKind| tool_name(k) != name@,
            },
    {
        let wanted = String::from_str(name);
        let tools = registry();
        let mut i: usize = 0;
        while i < tools.len()
            invariant
                i <= tools@.len(),
                tools@ == all_tools(),
                wanted@ == name@,
                forall|j: int| 0 <= j < i ==> tool_name(#[trigger] all_tools()[j]) != name@,
            decreases tools@.len() - i,
        {
            let candidate = tools[i].name();
            if candidate == wanted {
                return Some(tools[i]);
            }
            i = i + 1;
        }
        proof {
            assert forall|k: ToolKind| tool_name(k) != name@ by {
                lemma_all_tools_listed(k);
            }
        }
        None
    }

    /// Binds the arguments of a call by name to the tool's parameters, in
    /// their order; an absent optional one is the empty text.
    pub fn bind_arguments(&self, args: &Vec<(String, String)>) -> (r: Result<Vec<String>, ArgumentError>)
        ensures
            match r {
                Ok(values) => bound(tool_params(*self), arg_views(args@)) == Ok::<Seq<Seq<char>>, Seq<char>>(
                    values@.map_values(|v: String| v@),
                ),
                Err(ArgumentError::Missing { name }) => bound(tool_params(*self), arg_views(args@)) == Err::<Seq<Seq<char>>, Seq<char>>(name@),
            },
    {
        let params = self.parameters();
        let ghost pv = params@.map_values(|p: ParamSpec| p@);
        let mut values: Vec<String> = Vec::new();
        let mut i: usize = 0;
        assert(pv.take(0) =~= Seq::<(Seq<char>, ParamType, bool)>::empty());
        assert(values@.map_values(|v: String| v@) =~= Seq::<Seq<char>>::empty());
        while i < params.len()
            invariant
                i <= params@.len(),
                pv == params@.map_values(|p: ParamSpec| p@),
                pv == tool_params(*self),
                bound(pv.take(i as int), arg_views(args@)) == Ok::<Seq<Seq<char>>, Seq<char>>(
                    values@.map_values(|v: String| v@),
                ),
            decreases params@.len() - i,
        {
            proof {
                assert(pv.take(i as int + 1).drop_last() =~= pv.take(i as int));
                assert(pv.take(i as int + 1).last() == params@[i as int]@);
            }
            let p = &params[i];
            let ghost before = values@.map_values(|v: String| v@);
            assert(pv.take(i as int + 1).last().0 == p.name@);
            match find_argument(args, &p.name) {
                Some(v) => {
                    values.push(v);
                    proof {
                        assert(values@.map_values(|v: String| v@) =~= before.push(v@));
                    }
                },
                None => {
                    if p.required {
                        proof {
                            lemma_bound_error_stays(pv, arg_views(args@), i as int + 1);
                        }
                        return Err(ArgumentError::Missing { name: p.name.clone() });
                    }
                    values.push(String::new());
                    proof {
                        assert(values@.map_values(|v: String| v@) =~= before.push(Seq::empty()));
                    }
                },
            }
            i = i + 1;
        }
        assert(pv.take(pv.len() as int) =~= pv);
        Ok(values)
    }
}

/// The registry: every tool, built once and handed to whoever dispatches.
pub fn registry() -> (r: Vec<ToolKind>)
    ensures
        r@ == all_tools(),
{
    let r = vec![
        ToolKind::SummarizeRustCode,
        ToolKind::SummarizeJsOrTsCode,
        ToolKind::SummarizePythonCode,
        ToolKind::CreateFile,
        ToolKind::CreateDirectory,
        ToolKind::WriteToFile,
        ToolKind::GatherDirectoryContext,
        ToolKind::ReadFile,
    ];
    assert(r@ =~= all_tools());
    r
}

/// Once a prefix of the parameters fails to bind, so do all longer ones,
/// with the same missing name.
pub proof fn lemma_bound_error_stays(params: Seq<(Seq<char>, ParamType, bool)>, args: Seq<(Seq<char>, Seq<char>)>, k: int)
    requires
        0 <= k <= params.len(),
        bound(params.take(k), args) is Err,
    ensures
        bound(params, args) == bound(params.take(k), args),
    decreases params.len() - k,
{
    if k < params.len() {
        assert(params.take(k + 1).drop_last() =~= params.take(k));
        lemma_bound_error_stays(params, args, k + 1);
    } else {
        assert(params.take(k) =~= params);
    }
}

/// Every tool stands in the registry.
pub proof fn lemma_all_tools_listed(k: ToolKind)
    ensures
        exists|j: int| 0 <= j < all_tools().len() && #[trigger] all_tools()[j] == k,
{
    match k {
        ToolKind::SummarizeRustCode => assert(all_tools()[0] == k),
        ToolKind::SummarizeJsOrTsCode => assert(all_tools()[1] == k),
        ToolKind::SummarizePythonCode => assert(all_tools()[2] == k),
        ToolKind::CreateFile => assert(all_tools()[3] == k),
        ToolKind::CreateDirectory => assert(all_tools()[4] == k),
        ToolKind::WriteToFile => assert(all_tools()[5] == k),
        ToolKind::GatherDirectoryContext => assert(all_tools()[6] == k),
        ToolKind::ReadFile => assert(all_tools()[7] == k),
    }
}

/// No two tools share a name, so dispatch by name is a function.
pub proof fn tool_names_unique(a: ToolKind, b: ToolKind)
    ensures
        tool_name(a) == tool_name(b) ==> a == b,
{
    reveal_strlit("summarize_rust_code");
    reveal_strlit("summarize_js_or_ts_code");
    reveal_strlit("summarize_python_code");
    reveal_strlit("create_file");
    reveal_strlit("create_directory");
    reveal_strlit("write_to_file");
    reveal_strlit("gather_directory_context");
    reveal_strlit("read_file");
    if tool_name(a) == tool_name(b) && a != b {
        assert(tool_name(a).len() != tool_name(b).len() || tool_name(a)[0] != tool_name(b)[0] || tool_name(a)[10] != tool_name(b)[10] || tool_name(a)[7] != tool_name(b)[7]);
    }
}

} // verus!
