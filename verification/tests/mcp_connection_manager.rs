use codex_core::mcp_connection_manager::{
    can_qualify, filter_tools, is_allowed, is_valid_mcp_server_name, list_all_tools,
    list_resource_templates_context, list_resources_context, plan_startup, qualify_tools,
    read_resource_context, resolve_bearer_token, startup_token, tool_call_context, EnvLookup,
    ListMethod, McpConnectionManager, McpServerConfig, McpServerTransportConfig, PageStep, Pager,
    StartOutcome, Timeout, ToolFilter, ToolInfo, ToolListing, MAX_TOOL_NAME_LENGTH,
};

fn create_test_tool(server_name: &str, tool_name: &str) -> ToolInfo {
    ToolInfo {
        server_name: server_name.to_string(),
        tool_name: tool_name.to_string(),
        tool: format!("Test tool: {tool_name}"),
    }
}

fn keys(tools: &[(String, ToolInfo)]) -> Vec<String> {
    let mut keys: Vec<String> = tools.iter().map(|(name, _)| name.clone()).collect();
    keys.sort();
    keys
}

#[test]
fn test_qualify_tools_short_non_duplicated_names() {
    let tools = vec![
        create_test_tool("server1", "tool1"),
        create_test_tool("server1", "tool2"),
    ];

    let qualified_tools = keys(&qualify_tools(tools));

    assert_eq!(qualified_tools.len(), 2);
    assert!(qualified_tools.contains(&"mcp__server1__tool1".to_string()));
    assert!(qualified_tools.contains(&"mcp__server1__tool2".to_string()));
}

#[test]
fn test_qualify_tools_duplicated_names_skipped() {
    let tools = vec![
        create_test_tool("server1", "duplicate_tool"),
        create_test_tool("server1", "duplicate_tool"),
    ];

    let qualified_tools = keys(&qualify_tools(tools));

    // Only the first tool should remain, the second is skipped
    assert_eq!(qualified_tools.len(), 1);
    assert!(qualified_tools.contains(&"mcp__server1__duplicate_tool".to_string()));
}

#[test]
fn test_qualify_tools_long_names_same_server() {
    let server_name = "my_server";

    let tools = vec![
        create_test_tool(
            server_name,
            "extremely_lengthy_function_name_that_absolutely_surpasses_all_reasonable_limits",
        ),
        create_test_tool(
            server_name,
            "yet_another_extremely_lengthy_function_name_that_absolutely_surpasses_all_reasonable_limits",
        ),
    ];

    let qualified_tools = qualify_tools(tools);

    assert_eq!(qualified_tools.len(), 2);

    let keys = keys(&qualified_tools);

    assert_eq!(keys[0].len(), 64);
    assert_eq!(keys[0], "mcp__my_server__extremel119a2b97664e41363932dc84de21e2ff1b93b3e9");

    assert_eq!(keys[1].len(), 64);
    assert_eq!(keys[1], "mcp__my_server__yet_anot419a82a89325c1b477274a41f8c65ea5f3a7f341");
}

#[test]
fn tool_filter_allows_by_default() {
    let filter = ToolFilter::default();

    assert!(filter.allows("any"));
}

#[test]
fn tool_filter_applies_enabled_list() {
    let filter = ToolFilter {
        enabled: Some(vec!["allowed".to_string()]),
        disabled: vec![],
    };

    assert!(filter.allows("allowed"));
    assert!(!filter.allows("denied"));
}

#[test]
fn tool_filter_applies_disabled_list() {
    let filter = ToolFilter {
        enabled: None,
        disabled: vec!["blocked".to_string()],
    };

    assert!(!filter.allows("blocked"));
    assert!(filter.allows("open"));
}

#[test]
fn tool_filter_applies_enabled_then_disabled() {
    let filter = ToolFilter {
        enabled: Some(vec!["keep".to_string(), "remove".to_string()]),
        disabled: vec!["remove".to_string()],
    };

    assert!(filter.allows("keep"));
    assert!(!filter.allows("remove"));
    assert!(!filter.allows("unknown"));
}

#[test]
fn filter_tools_applies_per_server_filters() {
    let tools = vec![
        create_test_tool("server1", "tool_a"),
        create_test_tool("server1", "tool_b"),
        create_test_tool("server2", "tool_a"),
    ];
    let filters = vec![
        (
            "server1".to_string(),
            ToolFilter {
                enabled: Some(vec!["tool_a".to_string(), "tool_b".to_string()]),
                disabled: vec!["tool_b".to_string()],
            },
        ),
        (
            "server2".to_string(),
            ToolFilter {
                enabled: None,
                disabled: vec!["tool_a".to_string()],
            },
        ),
    ];

    let filtered = filter_tools(tools, &filters);

    assert_eq!(filtered.len(), 1);
    assert_eq!(filtered[0].server_name, "server1");
    assert_eq!(filtered[0].tool_name, "tool_a");
}

fn http_server(enabled: bool, bearer_token_env_var: Option<&str>) -> McpServerConfig {
    McpServerConfig {
        transport: McpServerTransportConfig::StreamableHttp {
            url: "https://example.com".to_string(),
            bearer_token_env_var: bearer_token_env_var.map(str::to_string),
            http_headers: None,
            env_http_headers: None,
        },
        enabled,
        startup_timeout_sec: None,
        tool_timeout_sec: Some(Timeout { secs: 3, nanos: 0 }),
        enabled_tools: Some(vec!["only".to_string()]),
        disabled_tools: None,
    }
}

#[test]
fn a_filter_follows_the_settings_of_its_server() {
    let filter = ToolFilter::from_config(&http_server(true, None));
    assert!(filter.allows("only"));
    assert!(!filter.allows("other"));
}

#[test]
fn server_names_are_plain() {
    assert!(is_valid_mcp_server_name("my-server_1"));
    assert!(!is_valid_mcp_server_name(""));
    assert!(!is_valid_mcp_server_name("my server"));
    assert!(!is_valid_mcp_server_name("sérver"));
}

#[test]
fn only_enabled_servers_with_valid_names_are_started() {
    let plan = plan_startup(vec![
        ("good".to_string(), http_server(true, Some("TOKEN"))),
        ("bad name".to_string(), http_server(true, None)),
        ("off".to_string(), http_server(false, None)),
    ]);
    assert_eq!(plan.starts.len(), 1);
    assert_eq!(plan.starts[0].server_name, "good");
    assert_eq!(plan.starts[0].startup_timeout.secs, 10);
    assert_eq!(plan.starts[0].tool_timeout.secs, 3);
    assert_eq!(plan.starts[0].bearer_token_env_var.as_deref(), Some("TOKEN"));
    assert_eq!(plan.errors.len(), 1);
    assert_eq!(plan.errors[0].0, "bad name");
}

#[test]
fn a_token_is_read_from_the_environment() {
    assert_eq!(resolve_bearer_token("s", None, EnvLookup::NotPresent), Ok(None));
    assert_eq!(
        resolve_bearer_token("s", Some("TOKEN"), EnvLookup::Value("secret".to_string())),
        Ok(Some("secret".to_string()))
    );
    assert!(resolve_bearer_token("s", Some("TOKEN"), EnvLookup::Value(String::new())).is_err());
    assert!(resolve_bearer_token("s", Some("TOKEN"), EnvLookup::NotPresent).is_err());
    assert!(resolve_bearer_token("s", Some("TOKEN"), EnvLookup::NotUnicode).is_err());
    assert_eq!(
        startup_token("s", Some("TOKEN"), EnvLookup::Value("secret".to_string())),
        Some("secret".to_string())
    );
    assert_eq!(startup_token("s", Some("TOKEN"), EnvLookup::NotPresent), None);
}

fn outcome(name: &str, failure: Option<&str>) -> StartOutcome {
    StartOutcome {
        server_name: name.to_string(),
        startup_timeout: Timeout { secs: 10, nanos: 0 },
        tool_timeout: Timeout { secs: 60, nanos: 0 },
        failure: failure.map(str::to_string),
    }
}

#[test]
fn a_manager_knows_the_tools_of_the_servers_that_started() {
    let (manager, errors) = McpConnectionManager::new(
        vec![],
        vec![(
            "up".to_string(),
            ToolFilter {
                enabled: None,
                disabled: vec!["hidden".to_string()],
            },
        )],
        vec![outcome("up", None), outcome("down", Some("boom"))],
        list_all_tools(&vec![
            ToolListing {
                server_name: "up".to_string(),
                tools: Some(vec![
                    ("shown".to_string(), "{}".to_string()),
                    ("hidden".to_string(), "{}".to_string()),
                ]),
            },
            ToolListing {
                server_name: "down".to_string(),
                tools: None,
            },
        ]),
    );
    assert_eq!(errors, vec![("down".to_string(), "boom".to_string())]);
    assert_eq!(
        manager.list_all_tools(),
        vec![("mcp__up__shown".to_string(), "{}".to_string())]
    );
    assert_eq!(
        manager.parse_tool_name("mcp__up__shown"),
        Some(("up".to_string(), "shown".to_string()))
    );
    assert_eq!(manager.parse_tool_name("mcp__up__hidden"), None);
    assert!(manager.call_tool("up", "shown").is_ok());
    assert!(manager.call_tool("up", "hidden").is_err());
    assert!(manager.call_tool("down", "x").is_err());
    assert!(manager.list_resources("down").is_err());
    assert!(manager.list_resource_templates("up").is_ok());
    assert!(manager.read_resource("up").is_ok());
}

#[test]
fn pages_are_collected_until_there_is_no_next_one() {
    let mut pager: Pager<u32> = Pager::new();
    assert!(matches!(
        pager.page(vec![1, 2], Some("a".to_string()), ListMethod::Resources),
        PageStep::More
    ));
    assert!(matches!(
        pager.page(vec![3], None, ListMethod::Resources),
        PageStep::Complete
    ));
    assert_eq!(pager.collected, vec![1, 2, 3]);
}

#[test]
fn a_repeated_page_is_an_error() {
    for (method, message) in [
        (ListMethod::Resources, "resources/list returned duplicate cursor"),
        (
            ListMethod::ResourceTemplates,
            "resources/templates/list returned duplicate cursor",
        ),
    ] {
        let mut pager: Pager<u32> = Pager::new();
        pager.page(vec![1], Some("a".to_string()), method);
        match pager.page(vec![1], Some("a".to_string()), method) {
            PageStep::Failed(m) => assert_eq!(m, message),
            other => panic!("unexpected step {other:?}"),
        }
    }
}

#[test]
fn servers_without_a_list_are_passed_over() {
    let lists = vec![("a".to_string(), Some(1)), ("b".to_string(), None)];
    assert_eq!(
        McpConnectionManager::list_all_resources(lists.clone()),
        vec![("a".to_string(), 1)]
    );
    assert_eq!(
        McpConnectionManager::list_all_resource_templates(lists),
        vec![("a".to_string(), 1)]
    );
}

#[test]
fn a_failed_call_names_server_and_tool() {
    assert_eq!(tool_call_context("s", "t"), "tool call failed for `s/t`");
}

#[test]
fn a_name_is_cut_between_characters() {
    assert!(can_qualify(&create_test_tool("server1", "tool1")));
    let long = "x".repeat(80);
    assert!(can_qualify(&create_test_tool("server1", &long)));
    // The cut would fall into the middle of a character of three bytes.
    let wide = "\u{20ac}".repeat(40);
    assert!(!can_qualify(&create_test_tool("srv", &wide)));
    assert!(can_qualify(&create_test_tool("s", "\u{20ac}")));
}

#[test]
fn errors_name_the_server_that_was_asked() {
    assert_eq!(tool_call_context("s", "t"), "tool call failed for `s/t`");
    assert_eq!(list_resources_context("s"), "resources/list failed for `s`");
    assert_eq!(
        list_resource_templates_context("s"),
        "resources/templates/list failed for `s`"
    );
    assert_eq!(read_resource_context("s", "file:///a"), "resources/read failed for `s` (file:///a)");
}

#[test]
fn names_fit_and_are_plain() {
    let tools: Vec<ToolInfo> = (1..90)
        .map(|n| create_test_tool("server-1", &"t".repeat(n)))
        .collect();
    let named = qualify_tools(tools);
    assert_eq!(named.len(), 89);
    for (name, tool) in &named {
        assert!(name.len() <= MAX_TOOL_NAME_LENGTH, "{name}");
        assert!(is_valid_mcp_server_name(name), "{name}");
        let full = format!("mcp__server-1__{}", tool.tool_name);
        assert_eq!(full.len() <= MAX_TOOL_NAME_LENGTH, *name == full);
    }
    let wide = qualify_tools(vec![create_test_tool("s", "\u{e9}\u{e9}")]);
    assert_eq!(wide[0].0, "mcp__s__\u{e9}\u{e9}");
}

#[test]
fn tools_belong_to_servers_that_run() {
    let listing = |name: &str, tools: Option<Vec<(String, String)>>| ToolListing {
        server_name: name.to_string(),
        tools,
    };
    let one = || Some(vec![("t".to_string(), "{}".to_string())]);
    let outcomes = vec![outcome("a", None), outcome("b", Some("gone")), outcome("c", None)];
    let all = list_all_tools(&vec![listing("a", one()), listing("b", None), listing("c", one())]);
    let filters = vec![(
        "c".to_string(),
        ToolFilter {
            enabled: None,
            disabled: vec!["t".to_string()],
        },
    )];
    assert!(is_allowed(&filters, &create_test_tool("a", "t")));
    assert!(!is_allowed(&filters, &create_test_tool("c", "t")));
    assert!(is_allowed(&filters, &create_test_tool("c", "u")));
    let (manager, errors) = McpConnectionManager::new(vec![], filters, outcomes, all);
    assert_eq!(keys(&manager.tools), ["mcp__a__t"]);
    for (_, tool) in &manager.tools {
        assert!(manager.clients.iter().any(|(name, _)| *name == tool.server_name));
    }
    assert_eq!(errors, [("b".to_string(), "gone".to_string())]);
}

#[test]
fn a_server_is_started_with_its_headers() {
    let mut cfg = http_server(true, None);
    let pairs = |name: &str| Some(vec![(name.to_string(), "V".to_string())]);
    cfg.transport = McpServerTransportConfig::StreamableHttp {
        url: "https://example.com".to_string(),
        bearer_token_env_var: None,
        http_headers: pairs("X-Plain"),
        env_http_headers: pairs("X-From-Env"),
    };
    let plan = plan_startup(vec![("good".to_string(), cfg)]);
    match &plan.starts[0].transport {
        McpServerTransportConfig::StreamableHttp {
            http_headers,
            env_http_headers,
            ..
        } => {
            assert_eq!(*http_headers, pairs("X-Plain"));
            assert_eq!(*env_http_headers, pairs("X-From-Env"));
        }
        other => panic!("unexpected {other:?}"),
    }
}
