//! Tool calls: a registry that routes a call to its handler by name, and the
//! command handler with its approval policy.
//!
//! Reading a call's JSON arguments is outside work: the router says when it is
//! needed, the caller performs it and hands the outcome to the handler. No
//! command is run for real; an approved command gets a simulated result.

use vstd::prelude::*;
use crate::model::exec_command_name;

verus! {

/// A request to run the tool `name` with JSON `arguments`.
#[derive(Debug)]
pub struct ToolCall {
    pub name: String,
    pub arguments: String,
}

/// The output of a tool that ran successfully.
#[derive(Debug)]
pub struct ToolResult {
    pub output: String,
}

/// The outcome of a tool call, success text or error text, as characters.
pub open spec fn result_view(r: Result<ToolResult, String>) -> Result<Seq<char>, Seq<char>> {
    match r {
        Ok(result) => Ok(result.output@),
        Err(e) => Err(e@),
    }
}

/// The arguments of the command tool.
#[derive(Debug)]
pub struct ExecCommandArgs {
    pub cmd: String,
}

/// What the approval policy decides on a command.
#[derive(Debug)]
pub enum ApprovalDecision {
    Approved,
    Denied(String),
}

/// The one command that the policy lets run.
pub open spec fn approved_command() -> Seq<char> {
    "pwd"@
}

/// Why the policy refuses `cmd`.
pub open spec fn denial_reason(cmd: Seq<char>) -> Seq<char> {
    "本阶段只允许pwd， 拒绝命令："@ + cmd
}

/// The error for arguments that are not valid JSON for the command tool.
pub open spec fn invalid_arguments_message(error: Seq<char>) -> Seq<char> {
    "工具参数不是合法json:"@ + error
}

/// The simulated output that an approved command gets; no process runs.
pub open spec fn simulated_output() -> Seq<char> {
    "模拟结果：/fake/project（没有执行真实 pwd）"@
}

/// The error for a call of a tool that is not registered.
pub open spec fn unregistered_message(name: Seq<char>) -> Seq<char> {
    "未注册工具："@ + name
}

/// The policy that reviews commands before they run.
#[derive(Clone, Copy, Debug)]
pub struct ApprovalPolicy;

impl ApprovalPolicy {
    /// Approves `pwd` and denies any other command, naming it.
    pub fn review(&self, args: &ExecCommandArgs) -> (r: ApprovalDecision)
        ensures
            args.cmd@ == approved_command() ==> r is Approved,
            args.cmd@ != approved_command() ==> (r matches ApprovalDecision::Denied(reason)
                && reason@ == denial_reason(args.cmd@)),
    {
        let pwd = "pwd".to_owned();
        if args.cmd == pwd {
            ApprovalDecision::Approved
        } else {
            let mut reason = "本阶段只允许pwd， 拒绝命令：".to_owned();
            reason.append(args.cmd.as_str());
            ApprovalDecision::Denied(reason)
        }
    }
}

/// The outcome of the command tool, given the outcome of reading its
/// arguments: refused, or approved with the simulated output.
pub open spec fn exec_result(parsed: Result<ExecCommandArgs, String>) -> Result<Seq<char>, Seq<char>> {
    match parsed {
        Err(e) => Err(invalid_arguments_message(e@)),
        Ok(args) => {
            if args.cmd@ == approved_command() {
                Ok(simulated_output())
            } else {
                Err(denial_reason(args.cmd@))
            }
        },
    }
}

/// The tool for shell commands, behind the approval policy.
#[derive(Clone, Copy, Debug)]
pub struct ExecCommandHandler {
    pub approval_policy: ApprovalPolicy,
}

impl ExecCommandHandler {
    pub fn new() -> (r: Self) {
        ExecCommandHandler { approval_policy: ApprovalPolicy }
    }

    /// The name under which the tool registers.
    pub fn tool_name(&self) -> (r: &'static str)
        ensures
            r@ == exec_command_name(),
    {
        "exec_command"
    }

    /// Takes the outcome of reading the call's JSON arguments (`Err` holds the
    /// reader's error text) and answers the call: refused, or approved with
    /// the simulated output. Nothing runs for real.
    pub fn execute(&self, parsed: Result<ExecCommandArgs, String>) -> (r: Result<ToolResult, String>)
        ensures
            result_view(r) == exec_result(parsed),
    {
        match parsed {
            Err(e) => {
                let mut message = "工具参数不是合法json:".to_owned();
                message.append(e.as_str());
                Err(message)
            },
            Ok(args) => {
                match self.approval_policy.review(&args) {
                    ApprovalDecision::Approved => Ok(ToolResult {
                        output: "模拟结果：/fake/project（没有执行真实 pwd）".to_owned(),
                    }),
                    ApprovalDecision::Denied(reason) => Err(reason),
                }
            },
        }
    }
}

/// A tool as the registry holds it.
#[derive(Clone, Copy, Debug)]
pub enum RegisteredTool {
    ExecCommand(ExecCommandHandler),
}

impl RegisteredTool {
    /// The name under which the tool is found.
    pub open spec fn name_view(self) -> Seq<char> {
        match self {
            RegisteredTool::ExecCommand(_) => exec_command_name(),
        }
    }

    /// The name under which the tool is found.
    pub fn tool_name(&self) -> (r: &'static str)
        ensures
            r@ == self.name_view(),
    {
        match self {
            RegisteredTool::ExecCommand(handler) => handler.tool_name(),
        }
    }
}

/// The first step of a tool call, as the router takes it.
#[derive(Debug)]
pub enum ToolStep {
    /// The call is over with this outcome.
    Finished(Result<ToolResult, String>),
    /// Read `arguments` as the command tool's JSON arguments and hand the
    /// outcome to `handler.execute`.
    ParseExecArgs { handler: ExecCommandHandler, arguments: String },
}

/// A `ToolStep` with its texts taken as characters.
pub enum ToolStepView {
    Finished(Result<Seq<char>, Seq<char>>),
    ParseExecArgs { arguments: Seq<char> },
}

impl View for ToolStep {
    type V = ToolStepView;

    open spec fn view(&self) -> ToolStepView {
        match self {
            ToolStep::Finished(r) => ToolStepView::Finished(result_view(*r)),
            ToolStep::ParseExecArgs { arguments, .. } => ToolStepView::ParseExecArgs {
                arguments: arguments@,
            },
        }
    }
}

/// How a call of `name` with `arguments` starts, given the registered names.
pub open spec fn dispatch_step(names: Seq<Seq<char>>, name: Seq<char>, arguments: Seq<char>) -> ToolStepView {
    if names.contains(name) {
        ToolStepView::ParseExecArgs { arguments }
    } else {
        ToolStepView::Finished(Err(unregistered_message(name)))
    }
}

/// The tools by name; no name is registered twice.
pub struct ToolRegistry {
    tools: Vec<RegisteredTool>,
}

impl View for ToolRegistry {
    type V = Seq<Seq<char>>;

    /// The registered names, in order of registration.
    closed spec fn view(&self) -> Seq<Seq<char>> {
        self.tools@.map_values(|t: RegisteredTool| t.name_view())
    }
}

impl ToolRegistry {
    /// No name occurs twice.
    #[verifier::type_invariant]
    spec fn names_unique(self) -> bool {
        forall|i: int, j: int| 0 <= i < j < self@.len() ==> self@[i] != self@[j]
    }

    /// An empty registry.
    pub fn new() -> (r: Self)
        ensures
            r@ == Seq::<Seq<char>>::empty(),
    {
        let r = ToolRegistry { tools: Vec::new() };
        assert(r@ =~= Seq::<Seq<char>>::empty());
        r
    }

    /// Adds `tool`, whose name must not be registered yet.
    pub fn register(&mut self, tool: RegisteredTool)
        requires
            !old(self)@.contains(tool.name_view()),
        ensures
            final(self)@ == old(self)@.push(tool.name_view()),
    {
        proof {
            use_type_invariant(&*self);
        }
        let mut tools: Vec<RegisteredTool> = Vec::new();
        std::mem::swap(&mut tools, &mut self.tools);
        tools.push(tool);
        proof {
            let names = tools@.map_values(|t: RegisteredTool| t.name_view());
            assert(names =~= old(self)@.push(tool.name_view()));
        }
        self.tools = tools;
        assert(self@ =~= old(self)@.push(tool.name_view()));
    }

    /// The tool registered under `name`, if any.
    pub fn lookup(&self, name: &String) -> (r: Option<RegisteredTool>)
        ensures
            r is None <==> !self@.contains(name@),
            r matches Some(t) ==> t.name_view() == name@,
    {
        let n = self.tools.len();
        let mut i: usize = 0;
        while i < n
            invariant
                n == self.tools@.len(),
                i <= n,
                forall|j: int| 0 <= j < i ==> self@[j] != name@,
            decreases n - i,
        {
            let tool = self.tools[i];
            let tool_name = tool.tool_name().to_owned();
            if tool_name == *name {
                assert(self@[i as int] == name@);
                return Some(tool);
            }
            i = i + 1;
        }
        assert(!self@.contains(name@)) by {
            if self@.contains(name@) {
                let k = choose|k: int| 0 <= k < self@.len() && self@[k] == name@;
                assert(self@[k] != name@);
            }
        }
        None
    }

    /// Routes `call` to the tool registered under its name.
    pub fn dispatch(&self, call: ToolCall) -> (r: ToolStep)
        ensures
            r@ == dispatch_step(self@, call.name@, call.arguments@),
    {
        match self.lookup(&call.name) {
            None => {
                let mut message = "未注册工具：".to_owned();
                message.append(call.name.as_str());
                ToolStep::Finished(Err(message))
            },
            Some(RegisteredTool::ExecCommand(handler)) => ToolStep::ParseExecArgs {
                handler,
                arguments: call.arguments,
            },
        }
    }
}

/// The tools that one turn may use.
pub struct ToolRouter {
    registry: ToolRegistry,
}

impl View for ToolRouter {
    type V = Seq<Seq<char>>;

    /// The names of the tools that the router reaches.
    closed spec fn view(&self) -> Seq<Seq<char>> {
        self.registry@
    }
}

impl ToolRouter {
    /// A router with the command tool registered.
    pub fn new() -> (r: Self)
        ensures
            r@ == seq![exec_command_name()],
    {
        let mut registry = ToolRegistry::new();
        registry.register(RegisteredTool::ExecCommand(ExecCommandHandler::new()));
        assert(registry@ =~= seq![exec_command_name()]);
        ToolRouter { registry }
    }

    /// The call of tool `name` with `arguments`.
    pub fn build_tool_call(name: String, arguments: String) -> (r: ToolCall)
        ensures
            r.name == name,
            r.arguments == arguments,
    {
        ToolCall { name, arguments }
    }

    /// Routes `call` to its tool.
    pub fn dispatch(&self, call: ToolCall) -> (r: ToolStep)
        ensures
            r@ == dispatch_step(self@, call.name@, call.arguments@),
    {
        self.registry.dispatch(call)
    }
}

} // verus!
