use big_iron::book::{get_portfolio, price_streams, CandleInterval, PriceStream};
use big_iron::cli::{clear_lines_sequence, status_line};
use big_iron::dashboard::{dashboard_view, plot_image_url, DashboardView};
use big_iron::decimal::push_decimal;
use big_iron::server_error::{default_error_page, internal_error, map_to_404, map_to_500, not_found, ServerError};

#[test]
fn decimal_text_of_numbers() {
    for (n, text) in [(0u64, "0"), (7, "7"), (10, "10"), (65535, "65535"), (u64::MAX, "18446744073709551615")] {
        let mut s = "x".to_string();
        push_decimal(&mut s, n);
        assert_eq!(s, format!("x{}", text));
    }
}

#[test]
fn clear_lines_sequence_moves_up_and_erases() {
    assert_eq!(clear_lines_sequence(0), "\x1b[0F\x1b[0J");
    assert_eq!(clear_lines_sequence(3), "\x1b[3F\x1b[0J");
    assert_eq!(clear_lines_sequence(65535), "\x1b[65535F\x1b[0J");
}

#[test]
fn status_line_quotes_time_and_task() {
    assert_eq!(status_line("12:00", "fetch"), "> BIG_IRON @ \"12:00\": \"fetch\"");
    assert_eq!(status_line("t", "say \"hi\""), "> BIG_IRON @ \"t\": \"say \\\"hi\\\"\"");
}

#[test]
fn server_errors_carry_status_and_message() {
    assert_eq!(map_to_500("db down"), ServerError::Custom(500, "db down".to_string()));
    assert_eq!(map_to_404("no file"), ServerError::NotFound("no file".to_string()));
}

#[test]
fn error_pages() {
    assert_eq!(internal_error(), "Error 500; something is not clicking right.");
    assert_eq!(not_found(), "Error 404; nothing here fren.");
    assert_eq!(default_error_page("418 I'm a teapot", "/brew"), "418 I'm a teapot (/brew)");
}

#[test]
fn dashboard_at_epoch() {
    assert_eq!(
        dashboard_view(0),
        Some(DashboardView {
            clock: "01. 01 1970 00:00:00".to_string(),
            chart_url: "http://localhost:8000/plot/account_balance_history?timestamp=01. 01 1970 00:00:00".to_string(),
        })
    );
    let v = dashboard_view(1_700_000_000).unwrap();
    assert_eq!(v.clock, "14. 11 2023 22:13:20");
}

#[test]
fn dashboard_out_of_range() {
    assert_eq!(dashboard_view(i64::MAX), None);
    assert_eq!(dashboard_view(i64::MIN), None);
}

#[test]
fn chart_url_carries_timestamp() {
    assert_eq!(plot_image_url("x"), "http://localhost:8000/plot/account_balance_history?timestamp=x");
}

#[test]
fn price_streams_followed() {
    get_portfolio();
    assert_eq!(
        price_streams(),
        vec![
            PriceStream { symbol: "BTCUSDT".to_string(), interval: CandleInterval::Minutes1 },
            PriceStream { symbol: "BNBBUSD".to_string(), interval: CandleInterval::Minutes3 },
        ]
    );
}
