//! The Docker panel: the services of the project, or why there are none.

use vstd::prelude::*;
use vstd::string::*;

use crate::text::{join2, join3, owned};
use crate::theme::Theme;

verus! {

broadcast use vstd::seq::group_seq_axioms;

/// The services: `None` before the first answer, then each with whether it
/// runs, or the daemon's own words about why not.
pub struct Services {
    pub found: Option<Result<Vec<(String, bool)>, String>>,
}

/// The services as contracts see them.
pub type ServicesView = Option<Result<Seq<(Seq<char>, bool)>, Seq<char>>>;

impl View for Services {
    type V = ServicesView;

    open spec fn view(&self) -> ServicesView {
        match self.found {
            None => None,
            Some(Ok(services)) => Some(Ok(services.deep_view())),
            Some(Err(message)) => Some(Err(message@)),
        }
    }
}

/// After the question was answered; `None` is a project without Docker.
pub open spec fn answered(read: ServicesView) -> ServicesView {
    match read {
        Some(found) => Some(found),
        None => Some(Err("Not a Docker project (no Dockerfile or compose file)"@)),
    }
}

/// A line of the panel.
pub struct ServiceLine {
    pub text: String,
    pub color: u32,
}

/// A line of the panel as contracts see it.
pub struct LineView {
    pub text: Seq<char>,
    pub color: u32,
}

impl vstd::view::DeepView for ServiceLine {
    type V = LineView;

    open spec fn deep_view(&self) -> LineView {
        LineView { text: self.text@, color: self.color }
    }
}

/// A service's line. Its state is a word, so that it can be read in every
/// theme.
pub open spec fn service_line(service: (Seq<char>, bool), theme: Theme) -> LineView {
    LineView {
        text: service.0 + "  ·  "@ + (if service.1 {
            "running"@
        } else {
            "stopped"@
        }),
        color: if service.1 {
            theme.text
        } else {
            theme.text_muted
        },
    }
}

/// The panel's lines.
pub open spec fn panel_lines(services: ServicesView, theme: Theme) -> Seq<LineView> {
    match services {
        None => seq![LineView { text: "Asking docker compose…"@, color: theme.text_muted }],
        Some(Err(message)) => seq![LineView { text: message, color: theme.text_muted }],
        Some(Ok(list)) => if list.len() == 0 {
            seq![LineView { text: "No compose services"@, color: theme.text_muted }]
        } else {
            Seq::new(list.len(), |i: int| service_line(list[i], theme))
        },
    }
}

/// A single muted line.
fn notice(text: String, theme: &Theme) -> (lines: Vec<ServiceLine>)
    ensures
        lines.deep_view() == seq![LineView { text: text@, color: theme.text_muted }],
{
    let mut lines: Vec<ServiceLine> = Vec::new();
    lines.push(ServiceLine { text, color: theme.text_muted });
    assert(lines.deep_view() =~= seq![LineView { text: text@, color: theme.text_muted }]);
    lines
}

impl Services {
    /// Nothing was asked yet.
    pub fn new() -> (services: Self)
        ensures
            services@ is None,
    {
        Services { found: None }
    }

    /// The question was answered, or there is no Docker to ask.
    pub fn read(&mut self, read: Services)
        ensures
            final(self)@ == answered(read@),
    {
        self.found = match read.found {
            Some(found) => Some(found),
            None => Some(Err(owned("Not a Docker project (no Dockerfile or compose file)"))),
        };
    }

    /// The panel's lines.
    pub fn render_docker_panel(&self, theme: &Theme) -> (lines: Vec<ServiceLine>)
        ensures
            lines.deep_view() == panel_lines(self@, *theme),
    {
        match &self.found {
            None => notice(owned("Asking docker compose…"), theme),
            Some(Err(message)) => notice(message.clone(), theme),
            Some(Ok(services)) => {
                if services.len() == 0 {
                    return notice(owned("No compose services"), theme);
                }
                let ghost all = panel_lines(self@, *theme);
                let mut lines: Vec<ServiceLine> = Vec::new();
                let mut i: usize = 0;
                assert(lines.deep_view() =~= all.take(0));
                while i < services.len()
                    invariant
                        i <= services.len(),
                        all == Seq::new(
                            services.len() as nat,
                            |i: int| service_line(services.deep_view()[i], *theme),
                        ),
                        lines.deep_view() == all.take(i as int),
                    decreases services.len() - i,
                {
                    let ghost gathered = lines.deep_view();
                    assert(services.deep_view()[i as int] == services[i as int].deep_view());
                    let running = services[i].1;
                    let marker = if running {
                        "running"
                    } else {
                        "stopped"
                    };
                    let color = if running {
                        theme.text
                    } else {
                        theme.text_muted
                    };
                    let text = join3(services[i].0.as_str(), "  ·  ", marker);
                    lines.push(ServiceLine { text, color });
                    assert(lines.deep_view() =~= gathered.push(all[i as int]));
                    assert(all.take(i + 1) =~= gathered.push(all[i as int]));
                    i += 1;
                }
                assert(lines.deep_view() =~= all);
                lines
            },
        }
    }
}

/// The command that Docker's entries of the palette type into the terminal.
pub fn docker_command(command: &str) -> (line: String)
    ensures
        line@ == "docker compose "@ + command@ + " "@,
{
    let front = join2("docker compose ", command);
    join2(front.as_str(), " ")
}

/// Every service has a line of its own, in order, which says whether it runs;
/// waiting, failing and having none are each said.
pub proof fn law_every_service_has_its_line(
    list: Seq<(Seq<char>, bool)>,
    message: Seq<char>,
    theme: Theme,
    i: int,
)
    ensures
        panel_lines(None, theme).len() == 1,
        panel_lines(None, theme)[0].text == "Asking docker compose…"@,
        panel_lines(Some(Err(message)), theme).len() == 1,
        panel_lines(Some(Err(message)), theme)[0].text == message,
        list.len() == 0 ==> panel_lines(Some(Ok(list)), theme).len() == 1 && panel_lines(
            Some(Ok(list)),
            theme,
        )[0].text == "No compose services"@,
        list.len() > 0 ==> panel_lines(Some(Ok(list)), theme).len() == list.len(),
        0 <= i < list.len() ==> {
            let line = panel_lines(Some(Ok(list)), theme)[i];
            &&& list[i].1 ==> line.text == list[i].0 + "  ·  "@ + "running"@ && line.color
                == theme.text
            &&& !list[i].1 ==> line.text == list[i].0 + "  ·  "@ + "stopped"@ && line.color
                == theme.text_muted
        },
{
}

/// An answer is kept as it came, and no answer is a project without containers.
pub proof fn law_answers_are_kept(read: Result<Seq<(Seq<char>, bool)>, Seq<char>>)
    ensures
        answered(Some(read)) == Some(read),
        answered(None) == Some(
            Err::<Seq<(Seq<char>, bool)>, Seq<char>>(
                "Not a Docker project (no Dockerfile or compose file)"@,
            ),
        ),
{
}

} // verus!
