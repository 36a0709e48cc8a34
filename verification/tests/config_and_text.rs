use polymind::config::{
    default_page_limit, default_pool, default_timeout, default_ua, AppCfg, CfgError, FinJuiceCfg,
    HttpCfg, PolyCfg, RssCfg, RssFeedCfg,
};
use polymind::text::{parse_u32, split_whitespace_tokens, trim_text};

fn sample_feed() -> RssFeedCfg {
    RssFeedCfg { id: "main".to_string(), url: "http://feed.example/rss".to_string(), lang: "en".to_string() }
}

fn good_cfg() -> AppCfg {
    AppCfg {
        http: HttpCfg {
            user_agent: default_ua(),
            timeout: default_timeout(),
            poolIdleTimeout: 30_000,
            tcpKeepAlive: 30_000,
            poolMaxIdlePerHost: default_pool(),
        },
        polymarket: PolyCfg {
            baseUrl: "http://markets.example".to_string(),
            gammaUrl: "http://catalogue.example".to_string(),
            marketListRefresh: 30_000,
            pageLimit: default_page_limit(),
            ascending: false,
            includeClosed: false,
        },
        rss: RssCfg { refresh: 60_000, concurrency: 8, feeds: vec![sample_feed()] },
        financial_juice: FinJuiceCfg {
            baseUrl: "http://headlines.example".to_string(),
            refresh: 60_000,
            cookie: "session=abc".to_string(),
        },
    }
}

#[test]
fn defaults_hold_their_documented_values() {
    assert_eq!(default_ua(), "polymind/0.1");
    assert_eq!(default_timeout(), 10_000);
    assert_eq!(default_pool(), 16);
    assert_eq!(default_page_limit(), 100);
}

#[test]
fn a_complete_configuration_validates() {
    assert!(good_cfg().validate().is_ok());
}

#[test]
fn each_missing_piece_is_reported_in_order() {
    let mut c = good_cfg();
    c.polymarket.baseUrl = String::new();
    assert_eq!(c.validate(), Err(CfgError::PolyBaseUrlMissing));

    let mut c = good_cfg();
    c.polymarket.gammaUrl = String::new();
    assert_eq!(c.validate(), Err(CfgError::GammaUrlMissing));

    let mut c = good_cfg();
    c.rss.concurrency = 0;
    assert_eq!(c.validate(), Err(CfgError::RssConcurrencyZero));

    let mut c = good_cfg();
    c.rss.feeds = Vec::new();
    assert_eq!(c.validate(), Err(CfgError::RssFeedsEmpty));

    let mut c = good_cfg();
    c.financial_juice.baseUrl = String::new();
    assert_eq!(c.validate(), Err(CfgError::FinJuiceBaseUrlMissing));

    let mut c = good_cfg();
    c.polymarket.baseUrl = String::new();
    c.rss.concurrency = 0;
    assert_eq!(c.validate(), Err(CfgError::PolyBaseUrlMissing));
}

#[test]
fn trimming_removes_only_surrounding_whitespace() {
    assert_eq!(trim_text("  breaking news \t\n"), "breaking news");
    assert_eq!(trim_text("plain"), "plain");
    assert_eq!(trim_text("   "), "");
    assert_eq!(trim_text(""), "");
    assert_eq!(trim_text("\u{a0}nbsp padded\u{a0}"), "nbsp padded");
}

#[test]
fn splitting_ignores_leading_and_trailing_space() {
    let toks = split_whitespace_tokens("  09:30  Sep 12 ");
    assert_eq!(toks, vec!["09:30", "Sep", "12"]);
    let toks = split_whitespace_tokens("one");
    assert_eq!(toks, vec!["one"]);
    let none: Vec<&str> = split_whitespace_tokens("   ");
    assert!(none.is_empty());
}

#[test]
fn decimal_parsing_matches_the_standard_rules() {
    assert_eq!(parse_u32("123"), Some(123));
    assert_eq!(parse_u32("+12"), Some(12));
    assert_eq!(parse_u32("007"), Some(7));
    assert_eq!(parse_u32(""), None);
    assert_eq!(parse_u32("+"), None);
    assert_eq!(parse_u32("12a"), None);
    assert_eq!(parse_u32("-1"), None);
    assert_eq!(parse_u32("4294967295"), Some(u32::MAX));
    assert_eq!(parse_u32("4294967296"), None);
}
