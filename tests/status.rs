use ansi_term::Color;
use statusline::config::{ClaudeStatusLineComponentConfig, ClaudeStatusLineConfig};
use statusline::status::{
    Amount, ClaudeStatusLineData, ContextWindow, Cost, Duration, Model, Percentage,
    RawClaudeStatusLineData, Tokens, BRIGHT_GREEN, BRIGHT_YELLOW, CONTEXT_ICON,
    CONTEXT_THRESHOLD_HIGH, CONTEXT_THRESHOLD_MEDIUM, COST_ICON, DURATION_ICON, LAVENDER,
    MODEL_ICON, PINK_RED, TOKENS_ICON,
};

fn defaults() -> ClaudeStatusLineConfig {
    ClaudeStatusLineConfig::default()
}

fn model(name: &str) -> Model {
    Model {
        display_name: name.to_string(),
    }
}

#[test]
fn cost_output() {
    let cost = Amount {
        total_cost_cents: Some(100),
    };

    let output = cost.render(&defaults());
    assert!(output.contains(COST_ICON));
    assert!(output.contains("$1.00"));
}

#[test]
fn default_output() {
    let data = ClaudeStatusLineData {
        cost: Amount::default(),
        duration: Duration::default(),
        // Unlike the other fields, this one is required and has no default.
        model: model("Model Display Name"),
        percentage: Percentage::default(),
        tokens: Tokens::default(),
    };

    let output = data.render(&defaults());
    assert!(output.contains(" 0%"));
    assert!(output.contains("0↑"));
    assert!(output.contains(" 0↓"));
    assert!(output.contains("$0.00"));
    assert!(output.contains("0s"));
}

#[test]
fn duration_as_zero() {
    let duration = Duration {
        total_api_duration_ms: Some(0),
    };

    let output = duration.render(&defaults());
    assert!(output.contains("0s"));
}

#[test]
fn duration_output() {
    let duration = Duration {
        total_api_duration_ms: Some(1_000),
    };

    let output = duration.render(&defaults());
    assert!(output.contains(DURATION_ICON));
    assert!(output.contains("1s"));
}

#[test]
fn full_output() {
    let data = ClaudeStatusLineData {
        cost: Amount {
            total_cost_cents: Some(5000),
        },
        duration: Duration {
            total_api_duration_ms: Some(60_000),
        },
        model: model("Model Display Name"),
        percentage: Percentage {
            used_percentage: Some(20),
        },
        tokens: Tokens {
            total_input_tokens: Some(5),
            total_output_tokens: Some(10),
        },
    };

    let output = data.render(&defaults());
    assert!(output.contains(MODEL_ICON));
    assert!(output.contains("Model Display Name"));
    assert!(output.contains(CONTEXT_ICON));
    assert!(output.contains("20%"));
    assert!(output.contains(TOKENS_ICON));
    assert!(output.contains("5↑"));
    assert!(output.contains("10↓"));
    assert!(output.contains(COST_ICON));
    assert!(output.contains("$50.00"));
    assert!(output.contains(DURATION_ICON));
    assert!(output.contains("1m"));
}

#[test]
fn model_output() {
    let model = model("Model Display Name");

    let output = model.render(&defaults());
    assert!(output.contains(MODEL_ICON));
    assert!(output.contains("Model Display Name"));
}

#[test]
fn percentage_bar_empty() {
    let percentage = Percentage {
        used_percentage: Some(0),
    };

    let output = percentage.render(&defaults());
    assert!(output.contains("░"));
    assert!(!output.contains("▓"));
}

#[test]
fn percentage_bar_full() {
    let percentage = Percentage {
        used_percentage: Some(100),
    };

    let output = percentage.render(&defaults());
    assert!(output.contains("▓"));
    assert!(!output.contains("░"));
}

#[test]
fn percentage_bar_half_and_half() {
    let percentage = Percentage {
        used_percentage: Some(50),
    };

    let output = percentage.render(&defaults());
    assert!(output.contains("▓"));
    assert!(output.contains("░"));
}

#[test]
fn percentage_color_high() {
    let percentage = Percentage {
        used_percentage: Some(CONTEXT_THRESHOLD_HIGH + 1),
    };

    assert_eq!(Color::Fixed(PINK_RED), Color::Fixed(percentage.color()));
}

#[test]
fn percentage_color_low() {
    let percentage = Percentage {
        used_percentage: Some(CONTEXT_THRESHOLD_MEDIUM),
    };

    assert_eq!(Color::Fixed(BRIGHT_GREEN), Color::Fixed(percentage.color()));
}

#[test]
fn percentage_color_medium() {
    let percentage = Percentage {
        used_percentage: Some(CONTEXT_THRESHOLD_HIGH),
    };

    assert_eq!(Color::Fixed(BRIGHT_YELLOW), Color::Fixed(percentage.color()));
}

#[test]
fn percentage_output() {
    let percentage = Percentage {
        used_percentage: Some(10),
    };

    let output = percentage.render(&defaults());
    assert!(output.contains(CONTEXT_ICON));
    assert!(output.contains("10%"));
}

#[test]
fn tokens_output() {
    let tokens = Tokens {
        total_input_tokens: Some(1234),
        total_output_tokens: Some(567),
    };

    let output = tokens.render(&defaults());
    assert!(output.contains(TOKENS_ICON));
    assert!(output.contains("1234↑"));
    assert!(output.contains("567↓"));
}

#[test]
fn tokens_output_default() {
    let tokens = Tokens::default();

    let output = tokens.render(&defaults());
    assert!(output.contains(TOKENS_ICON));
    assert!(output.contains("0↑"));
    assert!(output.contains("0↓"));
}

#[test]
fn raw_record_normalizes_sonnet() {
    let raw = RawClaudeStatusLineData {
        cost: None,
        context_window: Some(ContextWindow {
            percentage: Percentage {
                used_percentage: Some(1),
            },
            tokens: Tokens::default(),
        }),
        model: model("Sonnet 4.5"),
    };
    let data = ClaudeStatusLineData::from(raw);
    assert_eq!("Sonnet 4.5", data.model.display_name);
    assert_eq!(Some(1), data.percentage.used_percentage);
    assert_eq!(None, data.tokens.total_input_tokens);
    assert_eq!(None, data.cost.total_cost_cents);
    assert_eq!(None, data.duration.total_api_duration_ms);
}

#[test]
fn raw_record_keeps_every_section() {
    let raw = RawClaudeStatusLineData {
        cost: Some(Cost {
            amount: Amount {
                total_cost_cents: Some(5000),
            },
            duration: Duration {
                total_api_duration_ms: Some(2500),
            },
        }),
        context_window: Some(ContextWindow {
            percentage: Percentage {
                used_percentage: Some(1),
            },
            tokens: Tokens {
                total_input_tokens: Some(10),
                total_output_tokens: Some(5),
            },
        }),
        model: model("Sonnet 4.5"),
    };
    let data = ClaudeStatusLineData::from(raw);
    assert_eq!("Sonnet 4.5", data.model.display_name);
    assert_eq!(Some(1), data.percentage.used_percentage);
    assert_eq!(Some(10), data.tokens.total_input_tokens);
    assert_eq!(Some(5), data.tokens.total_output_tokens);
    assert_eq!(Some(5000), data.cost.total_cost_cents);
    assert_eq!(Some(2500), data.duration.total_api_duration_ms);
}

#[test]
fn missing_sections_give_defaults() {
    let raw = RawClaudeStatusLineData {
        cost: None,
        context_window: None,
        model: model("Opus"),
    };
    let output = ClaudeStatusLineData::from(raw).render(&defaults());
    for expected in ["0%", "0↑", "0↓", "$0.00", "0s", "Opus"] {
        assert!(output.contains(expected), "{expected} missing from {output}");
    }
}

#[test]
fn full_line_is_exact() {
    let data = ClaudeStatusLineData {
        cost: Amount {
            total_cost_cents: Some(1205),
        },
        duration: Duration {
            total_api_duration_ms: None,
        },
        model: model("M"),
        percentage: Percentage {
            used_percentage: Some(75),
        },
        tokens: Tokens {
            total_input_tokens: Some(3),
            total_output_tokens: None,
        },
    };
    let expected = "🤖 \x1b[38;5;208mM\x1b[0m | 🧠 \x1b[38;5;226m▓▓▓▓▓▓▓░░░ 75%\x1b[0m | 🪙 \x1b[38;5;213m3↑ 0↓\x1b[0m | 💰 \x1b[38;5;141m$12.05\x1b[0m | ⏱️ \x1b[38;5;39m0s\x1b[0m";
    assert_eq!(expected, data.render(&defaults()));
}

#[test]
fn cost_has_two_decimals() {
    let text = |cents| Amount {
        total_cost_cents: Some(cents),
    }
    .text();
    assert_eq!("$50.00", text(5000));
    assert_eq!("$0.07", text(7));
    assert_eq!("$0.50", text(50));
    assert_eq!("$123456.78", text(12345678));
    assert_eq!("$0.00", Amount::default().text());
}

#[test]
fn cost_is_painted_in_configured_color() {
    let mut config = defaults();
    config.cost = Some(ClaudeStatusLineComponentConfig {
        color: Some(9),
        icon: Some("C".to_string()),
    });
    let cost = Amount {
        total_cost_cents: Some(100),
    };
    assert_eq!("C \x1b[38;5;9m$1.00\x1b[0m", cost.render(&config));
    assert_eq!(
        format!("{} \x1b[38;5;{}m$1.00\x1b[0m", COST_ICON, LAVENDER),
        cost.render(&defaults())
    );
}

#[test]
fn percentage_colour_boundaries() {
    let color = |p| Percentage {
        used_percentage: Some(p),
    }
    .color();
    assert_eq!(BRIGHT_GREEN, color(70));
    assert_eq!(BRIGHT_YELLOW, color(71));
    assert_eq!(BRIGHT_YELLOW, color(80));
    assert_eq!(PINK_RED, color(81));
    assert_eq!(BRIGHT_GREEN, Percentage::default().color());
}

#[test]
fn percentage_bar_has_ten_cells() {
    for p in [-50, -1, 0, 9, 10, 55, 99, 100, 150, i32::MAX, i32::MIN] {
        let bar = Percentage {
            used_percentage: Some(p),
        }
        .bar();
        assert_eq!(10, bar.chars().count());
    }
    let bar = |p| Percentage {
        used_percentage: Some(p),
    }
    .bar();
    assert_eq!("░░░░░░░░░░", bar(0));
    assert_eq!("▓▓▓▓▓▓▓▓▓▓", bar(100));
    assert_eq!("▓▓▓▓▓░░░░░", bar(50));
    assert_eq!("▓░░░░░░░░░", bar(19));
    assert_eq!("▓▓▓▓▓▓▓▓▓▓", bar(150));
    assert_eq!("░░░░░░░░░░", bar(-20));
}

#[test]
fn percentage_text_shows_value() {
    let text = |p| Percentage {
        used_percentage: Some(p),
    }
    .text();
    assert_eq!("░░░░░░░░░░ 0%", text(0));
    assert_eq!("▓▓▓▓▓▓▓▓▓░ 99%", text(99));
    assert_eq!("░░░░░░░░░░ -3%", text(-3));
}

#[test]
fn duration_text_by_milliseconds() {
    let text = |ms| Duration {
        total_api_duration_ms: ms,
    }
    .text();
    assert_eq!("0s", text(None));
    assert_eq!("0s", text(Some(0)));
    assert!(text(Some(1_000)).contains("1s"));
    assert_ne!("1000", text(Some(1_000)));
    assert!(text(Some(60_000)).contains("1m"));
    assert!(text(Some(61_000)).contains("1m"));
}

#[test]
fn configured_icon_replaces_default() {
    let mut config = defaults();
    config.tokens = Some(ClaudeStatusLineComponentConfig {
        color: None,
        icon: Some("T".to_string()),
    });
    let tokens = Tokens::default();
    assert_eq!("T \x1b[38;5;213m0↑ 0↓\x1b[0m", tokens.render(&config));
}
