use ellefuanti::docker::{docker_command, Services};
use ellefuanti::theme::ThemeVariant;

fn answered(found: Option<Result<Vec<(String, bool)>, String>>) -> Services {
    let mut services = Services::new();
    services.read(Services { found });
    services
}

fn lines(services: &Services) -> Vec<String> {
    let theme = ThemeVariant::Dark.build();
    services.render_docker_panel(&theme).into_iter().map(|line| line.text).collect()
}

#[test]
fn a_service_says_its_state_in_a_word() {
    let theme = ThemeVariant::Dark.build();
    let services = answered(Some(Ok(vec![("db".to_string(), true), ("web".to_string(), false)])));
    let rows = services.render_docker_panel(&theme);
    assert_eq!(rows[0].text, "db  ·  running");
    assert_eq!(rows[0].color, theme.text);
    assert_eq!(rows[1].text, "web  ·  stopped");
    assert_eq!(rows[1].color, theme.text_muted);
}

#[test]
fn every_other_state_is_one_line() {
    assert_eq!(lines(&Services::new()), vec!["Asking docker compose…"]);
    assert_eq!(lines(&answered(Some(Ok(vec![])))), vec!["No compose services"]);
    assert_eq!(lines(&answered(Some(Err("daemon is down".to_string())))), vec!["daemon is down"]);
    assert_eq!(
        lines(&answered(None)),
        vec!["Not a Docker project (no Dockerfile or compose file)"]
    );
}

#[test]
fn a_command_is_left_on_the_prompt() {
    assert_eq!(docker_command("up -d"), "docker compose up -d ");
}
