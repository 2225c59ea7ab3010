//! The agent: what it is made of, how it is built and how many turns it may take.

use std::sync::Arc;

use vstd::prelude::*;

use crate::adapter::CodeGraphChatAdapter;
use crate::limits::{context_window_fits, kept_messages, max_context_bytes, memory_window};
use crate::limits::{history_limit, read_memory_window_config, ContextTier};

verus! {

/// The kinds of analysis that an agent is built for.
#[derive(Debug, Clone, Copy, PartialEq, Eq, Structural)]
pub enum AnalysisType {
    CodeSearch,
    DependencyAnalysis,
    CallChainAnalysis,
    ArchitectureAnalysis,
    ApiSurfaceAnalysis,
    ContextBuilder,
    SemanticQuestion,
    ComplexityAnalysis,
}

/// The kinds of output that an agent gives.
#[derive(Debug, Clone, Copy, PartialEq, Eq, Structural)]
pub enum OutputSchema {
    CodeSearchOutput,
    DependencyAnalysisOutput,
    CallChainOutput,
    ArchitectureAnalysisOutput,
    APISurfaceOutput,
    ContextBuilderOutput,
    SemanticQuestionOutput,
    ComplexityAnalysisOutput,
}

/// The tools that work on the code graph.
#[derive(Debug, Clone, Copy, PartialEq, Eq, Structural)]
pub enum GraphTool {
    SemanticCodeSearch,
    GetTransitiveDependencies,
    GetReverseDependencies,
    TraceCallChain,
    DetectCycles,
    CalculateCoupling,
    GetHubNodes,
    FindComplexityHotspots,
}

/// The kind of output that belongs to a kind of analysis.
pub open spec fn schema_for(analysis_type: AnalysisType) -> OutputSchema {
    match analysis_type {
        AnalysisType::CodeSearch => OutputSchema::CodeSearchOutput,
        AnalysisType::DependencyAnalysis => OutputSchema::DependencyAnalysisOutput,
        AnalysisType::CallChainAnalysis => OutputSchema::CallChainOutput,
        AnalysisType::ArchitectureAnalysis => OutputSchema::ArchitectureAnalysisOutput,
        AnalysisType::ApiSurfaceAnalysis => OutputSchema::APISurfaceOutput,
        AnalysisType::ContextBuilder => OutputSchema::ContextBuilderOutput,
        AnalysisType::SemanticQuestion => OutputSchema::SemanticQuestionOutput,
        AnalysisType::ComplexityAnalysis => OutputSchema::ComplexityAnalysisOutput,
    }
}

/// Every tool on the code graph, in the order in which an agent is given them.
pub open spec fn all_graph_tools() -> Seq<GraphTool> {
    seq![
        GraphTool::SemanticCodeSearch,
        GraphTool::GetTransitiveDependencies,
        GraphTool::GetReverseDependencies,
        GraphTool::TraceCallChain,
        GraphTool::DetectCycles,
        GraphTool::CalculateCoupling,
        GraphTool::GetHubNodes,
        GraphTool::FindComplexityHotspots,
    ]
}

/// An agent that answers questions about code with the tools on the code graph.
#[derive(Debug, Clone, PartialEq, Eq)]
pub struct CodeGraphReActAgent {
    pub tools: Vec<GraphTool>,
    pub system_prompt: String,
    pub analysis_type: AnalysisType,
    pub max_iterations: usize,
}

impl CodeGraphReActAgent {
    /// What the model is told about its task.
    pub fn description(&self) -> (description: &str)
        ensures
            description@ == self.system_prompt@,
    {
        self.system_prompt.as_str()
    }

    /// The name of the agent.
    pub fn name(&self) -> (name: &str)
        ensures
            name@ == "codegraph_agent"@,
    {
        "codegraph_agent"
    }

    /// The kind of output that the agent gives.
    pub fn output_schema(&self) -> (schema: OutputSchema)
        ensures
            schema == schema_for(self.analysis_type),
    {
        match self.analysis_type {
            AnalysisType::CodeSearch => OutputSchema::CodeSearchOutput,
            AnalysisType::DependencyAnalysis => OutputSchema::DependencyAnalysisOutput,
            AnalysisType::CallChainAnalysis => OutputSchema::CallChainOutput,
            AnalysisType::ArchitectureAnalysis => OutputSchema::ArchitectureAnalysisOutput,
            AnalysisType::ApiSurfaceAnalysis => OutputSchema::APISurfaceOutput,
            AnalysisType::ContextBuilder => OutputSchema::ContextBuilderOutput,
            AnalysisType::SemanticQuestion => OutputSchema::SemanticQuestionOutput,
            AnalysisType::ComplexityAnalysis => OutputSchema::ComplexityAnalysisOutput,
        }
    }

    /// The tools of the agent, in order.
    pub fn tools(&self) -> (tools: Vec<GraphTool>)
        ensures
            tools@ == self.tools@,
    {
        let mut tools: Vec<GraphTool> = Vec::new();
        for i in 0..self.tools.len()
            invariant
                tools@ == self.tools@.take(i as int),
        {
            tools.push(self.tools[i]);
            proof {
                assert(self.tools@.take(i as int).push(self.tools@[i as int]) =~= self.tools@.take(
                    i + 1,
                ));
            }
        }
        proof {
            assert(self.tools@.take(self.tools@.len() as int) =~= self.tools@);
        }
        tools
    }
}

/// How an agent is run.
#[derive(Debug, Clone, Copy, PartialEq, Eq, Structural)]
pub struct ExecutorConfig {
    pub max_turns: usize,
}

/// An agent together with the number of turns that it may take.
#[derive(Debug)]
pub struct TierAwareReActAgent<T> {
    pub inner_derive: Arc<T>,
    pub max_turns: usize,
}

impl<T> TierAwareReActAgent<T> {
    /// The agent, limited to the given number of turns.
    pub fn new(agent: T, max_turns: usize) -> (limited: Self)
        ensures
            *limited.inner_derive == agent,
            limited.max_turns == max_turns,
    {
        TierAwareReActAgent { inner_derive: Arc::new(agent), max_turns }
    }

    /// How the agent is run: with its own number of turns.
    pub fn config(&self) -> (config: ExecutorConfig)
        ensures
            config.max_turns == self.max_turns,
    {
        ExecutorConfig { max_turns: self.max_turns }
    }
}

impl<T> Clone for TierAwareReActAgent<T> {
    fn clone(&self) -> (copy: Self)
        ensures
            copy.inner_derive == self.inner_derive,
            copy.max_turns == self.max_turns,
    {
        TierAwareReActAgent { inner_derive: self.inner_derive.clone(), max_turns: self.max_turns }
    }
}

impl TierAwareReActAgent<CodeGraphReActAgent> {
    /// What the model is told about its task, as the agent itself says it.
    pub fn description(&self) -> (description: &str)
        ensures
            description@ == self.inner_derive.system_prompt@,
    {
        self.inner_derive.description()
    }

    /// The name of the agent itself.
    pub fn name(&self) -> (name: &str)
        ensures
            name@ == "codegraph_agent"@,
    {
        self.inner_derive.name()
    }

    /// The kind of output that the agent itself gives.
    pub fn output_schema(&self) -> (schema: OutputSchema)
        ensures
            schema == schema_for(self.inner_derive.analysis_type),
    {
        self.inner_derive.output_schema()
    }

    /// The tools of the agent itself.
    pub fn tools(&self) -> (tools: Vec<GraphTool>)
        ensures
            tools@ == self.inner_derive.tools@,
    {
        self.inner_derive.tools()
    }
}

/// Why an agent is not built.
#[derive(Debug, Clone, PartialEq, Eq)]
pub enum BuildError {
    /// There is no system prompt for the agent, for the given reason.
    CustomError(String),
}

/// An agent that is ready to be run.
#[derive(Debug)]
pub struct AgentHandle {
    pub agent: TierAwareReActAgent<CodeGraphReActAgent>,
    pub tier: ContextTier,
    pub analysis_type: AnalysisType,
    /// The chat that the agent has with the model.
    pub llm_adapter: CodeGraphChatAdapter,
    /// How many messages of history the agent keeps; zero for all of them.
    pub memory_window: usize,
}

impl AgentHandle {
    /// How many messages of history the agent keeps, or `None` where it keeps all of them.
    pub fn history_limit(&self) -> (limit: Option<usize>)
        ensures
            limit == kept_messages(self.memory_window),
    {
        history_limit(self.memory_window)
    }
}

/// What an agent is built from.
#[derive(Debug, Clone, Copy, PartialEq, Eq, Structural)]
pub struct CodeGraphAgentBuilder {
    pub llm_adapter: CodeGraphChatAdapter,
    pub tier: ContextTier,
    pub analysis_type: AnalysisType,
}

impl CodeGraphAgentBuilder {
    /// Begins an agent for models of a tier, with the given value of the context window setting.
    pub fn new(
        tier: ContextTier,
        analysis_type: AnalysisType,
        context_window: Option<&str>,
    ) -> (builder: Self)
        requires
            context_window_fits(context_window),
        ensures
            builder.tier == tier,
            builder.analysis_type == analysis_type,
            builder.llm_adapter.tier == tier,
            !builder.llm_adapter.reports_progress,
            builder.llm_adapter.step_counter == 1,
            builder.llm_adapter.max_context_bytes == max_context_bytes(tier, context_window),
    {
        CodeGraphAgentBuilder {
            llm_adapter: CodeGraphChatAdapter::new(tier, context_window),
            tier,
            analysis_type,
        }
    }

    /// Begins an agent like that of `new` whose steps are reported.
    pub fn with_progress_callback(
        tier: ContextTier,
        analysis_type: AnalysisType,
        context_window: Option<&str>,
    ) -> (builder: Self)
        requires
            context_window_fits(context_window),
        ensures
            builder.tier == tier,
            builder.analysis_type == analysis_type,
            builder.llm_adapter.tier == tier,
            builder.llm_adapter.reports_progress,
            builder.llm_adapter.step_counter == 1,
            builder.llm_adapter.max_context_bytes == max_context_bytes(tier, context_window),
    {
        CodeGraphAgentBuilder {
            llm_adapter: CodeGraphChatAdapter::with_progress_callback(tier, context_window),
            tier,
            analysis_type,
        }
    }

    /// Builds the agent with all tools on the code graph, for the given system prompt, or the
    /// reason for which there is none, the number of turns that the agent may take and the value
    /// of the memory setting.
    pub fn build(
        self,
        system_prompt: Result<String, String>,
        max_iterations: usize,
        memory_setting: Option<&str>,
    ) -> (handle: Result<AgentHandle, BuildError>)
        ensures
            match (handle, system_prompt) {
                (Ok(handle), Ok(system_prompt)) => {
                    &&& handle.agent.max_turns == max_iterations
                    &&& handle.agent.inner_derive.tools@ == all_graph_tools()
                    &&& handle.agent.inner_derive.system_prompt@ == system_prompt@
                    &&& handle.agent.inner_derive.analysis_type == self.analysis_type
                    &&& handle.agent.inner_derive.max_iterations == max_iterations
                    &&& handle.tier == self.tier
                    &&& handle.analysis_type == self.analysis_type
                    &&& handle.llm_adapter == self.llm_adapter
                    &&& handle.memory_window == memory_window(memory_setting)
                },
                (Err(BuildError::CustomError(reason)), Err(given)) => reason@ == given@,
                _ => false,
            },
    {
        let system_prompt = match system_prompt {
            Ok(system_prompt) => system_prompt,
            Err(reason) => {
                return Err(BuildError::CustomError(reason));
            },
        };
        let memory_window = read_memory_window_config(memory_setting);
        let tools: Vec<GraphTool> = vec![
            GraphTool::SemanticCodeSearch,
            GraphTool::GetTransitiveDependencies,
            GraphTool::GetReverseDependencies,
            GraphTool::TraceCallChain,
            GraphTool::DetectCycles,
            GraphTool::CalculateCoupling,
            GraphTool::GetHubNodes,
            GraphTool::FindComplexityHotspots,
        ];
        proof {
            assert(tools@ =~= all_graph_tools());
        }
        let codegraph_agent = CodeGraphReActAgent {
            tools,
            system_prompt,
            analysis_type: self.analysis_type,
            max_iterations,
        };
        Ok(
            AgentHandle {
                agent: TierAwareReActAgent::new(codegraph_agent, max_iterations),
                tier: self.tier,
                analysis_type: self.analysis_type,
                llm_adapter: self.llm_adapter,
                memory_window,
            },
        )
    }
}

/// Different kinds of analysis give different kinds of output.
pub proof fn law_schemas_are_distinct(one: AnalysisType, other: AnalysisType)
    requires
        one != other,
    ensures
        schema_for(one) != schema_for(other),
{
}

/// An agent is given every tool on the code graph, and none of them twice.
pub proof fn law_agent_has_every_tool_once(tool: GraphTool)
    ensures
        all_graph_tools().contains(tool),
        all_graph_tools().no_duplicates(),
{
    let tools = all_graph_tools();
    let place: int = match tool {
        GraphTool::SemanticCodeSearch => 0,
        GraphTool::GetTransitiveDependencies => 1,
        GraphTool::GetReverseDependencies => 2,
        GraphTool::TraceCallChain => 3,
        GraphTool::DetectCycles => 4,
        GraphTool::CalculateCoupling => 5,
        GraphTool::GetHubNodes => 6,
        GraphTool::FindComplexityHotspots => 7,
    };
    assert(tools[place] == tool);
}

/// Each kind of analysis gives the kind of output that is named after it.
pub proof fn law_output_fits_the_analysis(kind: AnalysisType)
    ensures
        schema_for(kind) is CodeSearchOutput <==> kind is CodeSearch,
        schema_for(kind) is DependencyAnalysisOutput <==> kind is DependencyAnalysis,
        schema_for(kind) is CallChainOutput <==> kind is CallChainAnalysis,
        schema_for(kind) is ArchitectureAnalysisOutput <==> kind is ArchitectureAnalysis,
        schema_for(kind) is APISurfaceOutput <==> kind is ApiSurfaceAnalysis,
        schema_for(kind) is ContextBuilderOutput <==> kind is ContextBuilder,
        schema_for(kind) is SemanticQuestionOutput <==> kind is SemanticQuestion,
        schema_for(kind) is ComplexityAnalysisOutput <==> kind is ComplexityAnalysis,
{
}

} // verus!
