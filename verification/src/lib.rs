//! Verified core of the CPN hosting panel: request parsing, session and CSRF
//! tokens, catalog filtering, release/version logic and page rendering.

pub mod text;
pub mod url_form;
pub mod panel_session;
pub mod panel_site_tools_security;
pub mod panel_plugins_spa;
pub mod panel_public_url;
pub mod panel_theme;
pub mod panel_design;
pub mod panel_theme_chrome;
pub mod guest;
pub mod releases;
pub mod releases_cache;
pub mod release_verify;
pub mod releases_direct;
pub mod civil;
pub mod php_lifecycle;
pub mod php_defaults;
pub mod panel_user_prefs;
pub mod panel_sidebar;
pub mod site;
pub mod panel_site_git;
pub mod panel_webauthn;
pub mod panel_webauthn_client;
pub mod panel_site_vhost_wire;
pub mod panel_website_bandwidth;
pub mod panel_prefs;
pub mod postfix_fallback;
pub mod port_redirect;
pub mod paths;
pub mod panel_website_logs;
pub mod plugins;
pub mod plugins_catalog;
pub mod plugin_activation;
pub mod panel_plugins_store;
pub mod panel_webmail_proxy;
pub mod panel_websites_create_ui;
pub mod panel_site_clone;
pub mod plugins_settings;
pub mod proxy_front;
pub mod panel_website_manage_ui;
pub mod panel_website_manage_tabs;
pub mod panel_website_manage_tools;
pub mod panel_website_manage_ssl;
pub mod panel_website_manage;
pub mod panel_sections;
pub mod panel_wordpress_ui;
pub mod panel_website_logs_ui;
pub mod panel_website_metrics;
pub mod panel_plugins_unified;
pub mod panel_plugin_flows;
pub mod panel_plugins_page;
pub mod panel_websites_forms;
pub mod panel_site_terminal;
pub mod panel_plugins_catalog_list;
