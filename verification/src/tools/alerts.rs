//! Alerts: raising them, listing them with filters and acknowledging them.
use vstd::prelude::*;
use crate::clock::now_timestamp;
use crate::ids::new_uuid_simple;
use crate::json::{has_text, Json};
use crate::text::{cat, cat3, owned, same_text};
use crate::tools::builtin::{count, is_count};
use crate::tools::discovery::{first_index, lemma_first_index};
use crate::tools::error::ToolError;
use crate::tools::system::{severity_name, AlertInfo, AlertSeverity};
use crate::tools::tool::{opt_chars, ToolOutput};

verus! {

/// The severity that a name asks for; anything unknown is informational.
pub open spec fn severity_of(name: Seq<char>) -> AlertSeverity {
    if name == "critical"@ {
        AlertSeverity::Critical
    } else if name == "error"@ {
        AlertSeverity::Error
    } else if name == "warning"@ {
        AlertSeverity::Warning
    } else {
        AlertSeverity::Info
    }
}

/// The ids of the alerts, in order.
pub open spec fn alert_ids(alerts: Seq<AlertInfo>) -> Seq<Seq<char>> {
    alerts.map_values(|a: AlertInfo| a.id@)
}

/// Whether an alert passes the listing filters. A severity filter keeps
/// the alerts that do not have the named severity; an acknowledgement
/// filter keeps those acknowledged as asked.
pub open spec fn listed(a: AlertInfo, severity: Option<Seq<char>>, acknowledged: Option<bool>) -> bool {
    &&& match severity {
        Some(s) => if s == "critical"@ {
            a.severity != AlertSeverity::Critical
        } else if s == "error"@ {
            a.severity != AlertSeverity::Error
        } else if s == "warning"@ {
            a.severity != AlertSeverity::Warning
        } else if s == "info"@ {
            a.severity != AlertSeverity::Info
        } else {
            true
        },
        None => true,
    }
    &&& match acknowledged {
        Some(b) => a.acknowledged == b,
        None => true,
    }
}

/// The alerts a listing shows: those that pass the filters, at most `limit` of them.
pub open spec fn shown(alerts: Seq<AlertInfo>, severity: Option<Seq<char>>, acknowledged: Option<bool>, limit: Option<int>) -> Seq<AlertInfo> {
    let kept = alerts.filter(|a: AlertInfo| listed(a, severity, acknowledged));
    match limit {
        Some(n) => if n < kept.len() { kept.take(n) } else { kept },
        None => kept,
    }
}

/// Whether `j` is the JSON object of an alert in a listing.
pub open spec fn is_alert_obj(j: Json, a: AlertInfo) -> bool {
    j matches Json::Object(o) && o@.len() == 6 && has_text(o@, 0, "id"@, a.id@) && has_text(o@, 1, "title"@, a.title@)
        && has_text(o@, 2, "message"@, a.message@) && has_text(o@, 3, "severity"@, severity_name(a.severity))
        && o@[4].0@ == "created_at"@ && o@[4].1 == Json::Int(a.created_at)
        && o@[5].0@ == "acknowledged"@ && o@[5].1 == Json::Bool(a.acknowledged)
}

impl AlertInfo {
    /// A copy of the alert.
    pub fn copy(&self) -> (r: Self)
        ensures
            r == *self,
    {
        AlertInfo {
            id: self.id.clone(),
            title: self.title.clone(),
            message: self.message.clone(),
            severity: self.severity,
            created_at: self.created_at,
            acknowledged: self.acknowledged,
            acknowledged_by: match &self.acknowledged_by {
                Some(b) => Some(b.clone()),
                None => None,
            },
            acknowledged_at: self.acknowledged_at,
        }
    }

    /// The alert as a JSON object of a listing.
    pub fn to_json(&self) -> (j: Json)
        ensures
            is_alert_obj(j, *self),
    {
        let mut o: Vec<(String, Json)> = Vec::new();
        o.push((owned("id"), Json::Str(self.id.clone())));
        o.push((owned("title"), Json::Str(self.title.clone())));
        o.push((owned("message"), Json::Str(self.message.clone())));
        o.push((owned("severity"), Json::Str(owned(self.severity.as_str()))));
        o.push((owned("created_at"), Json::Int(self.created_at)));
        o.push((owned("acknowledged"), Json::Bool(self.acknowledged)));
        Json::Object(o)
    }
}

fn severity_from(name: &str) -> (s: AlertSeverity)
    ensures
        s == severity_of(name@),
{
    if same_text(name, "critical") {
        AlertSeverity::Critical
    } else if same_text(name, "error") {
        AlertSeverity::Error
    } else if same_text(name, "warning") {
        AlertSeverity::Warning
    } else {
        AlertSeverity::Info
    }
}

fn text_member(key: &str, value: &str) -> (m: (String, Json))
    ensures
        m.0@ == key@,
        m.1.text() == Some(value@),
{
    (owned(key), Json::Str(owned(value)))
}

fn alert_position(alerts: &Vec<AlertInfo>, id: &str) -> (r: Option<usize>)
    ensures
        r matches Some(k) ==> first_index(alert_ids(alerts@), id@) == Some(k as int) && k < alerts@.len(),
        r is None ==> first_index(alert_ids(alerts@), id@) is None,
{
    let ghost ids = alert_ids(alerts@);
    let mut i: usize = 0;
    while i < alerts.len()
        invariant
            i <= alerts@.len(),
            ids == alert_ids(alerts@),
            forall|j: int| 0 <= j < i ==> #[trigger] ids[j] != id@,
        decreases alerts@.len() - i,
    {
        if same_text(alerts[i].id.as_str(), id) {
            proof {
                lemma_first_index(ids, id@, i as int);
            }
            return Some(i);
        }
        i = i + 1;
    }
    proof {
        if exists|k: int| 0 <= k < ids.len() && #[trigger] ids[k] == id@ {
            let k = choose|k: int| 0 <= k < ids.len() && #[trigger] ids[k] == id@;
            assert(ids[k] != id@);
        }
    }
    None
}

fn copy_alerts(alerts: &Vec<AlertInfo>) -> (r: Vec<AlertInfo>)
    ensures
        r@ == alerts@,
{
    let mut r: Vec<AlertInfo> = Vec::new();
    let mut i: usize = 0;
    while i < alerts.len()
        invariant
            i <= alerts@.len(),
            r@ == alerts@.subrange(0, i as int),
        decreases alerts@.len() - i,
    {
        r.push(alerts[i].copy());
        i = i + 1;
        assert(r@ =~= alerts@.subrange(0, i as int));
    }
    r
}

/// The tool `create_alert`, over its store of alerts.
pub struct CreateAlertTool {
    pub alerts: Vec<AlertInfo>,
}

impl CreateAlertTool {
    /// A tool with no alerts.
    pub fn new() -> (t: Self)
        ensures
            t.alerts@.len() == 0,
    {
        CreateAlertTool { alerts: Vec::new() }
    }

    /// Copies of all alerts.
    pub fn get_alerts(&self) -> (r: Vec<AlertInfo>)
        ensures
            r@ == self.alerts@,
    {
        copy_alerts(&self.alerts)
    }

    /// The name under which the model calls the tool.
    pub fn name(&self) -> (s: &'static str)
        ensures
            s@ == "create_alert"@,
    {
        "create_alert"
    }

    /// Raises an alert with the title, message and severity of the
    /// arguments, a fresh id and the current time; a title and a message are
    /// required.
    pub fn execute(&mut self, args: &Json) -> (r: Result<ToolOutput, ToolError>)
        ensures
            match (args.text_at("title"@), args.text_at("message"@)) {
                (None, _) => r matches Err(ToolError::InvalidArguments(m)) && m@ == "title is required"@
                    && final(self).alerts@ == old(self).alerts@,
                (Some(_), None) => r matches Err(ToolError::InvalidArguments(m)) && m@ == "message is required"@
                    && final(self).alerts@ == old(self).alerts@,
                (Some(title), Some(message)) => {
                    let sev = match args.text_at("severity"@) {
                        Some(s) => s,
                        None => "info"@,
                    };
                    let a = final(self).alerts@.last();
                    &&& final(self).alerts@ == old(self).alerts@.push(a)
                    &&& a.id@.len() == 38 && a.id@.subrange(0, 6) == "alert_"@
                    &&& a.title@ == title && a.message@ == message
                    &&& a.severity == severity_of(sev)
                    &&& !a.acknowledged && a.acknowledged_by is None && a.acknowledged_at is None
                    &&& r matches Ok(o) && o.success && o.error is None && o.metadata is None
                        && (o.data matches Json::Object(d) && d@.len() == 6 && has_text(d@, 0, "id"@, a.id@)
                            && has_text(d@, 1, "title"@, title) && has_text(d@, 2, "message"@, message)
                            && has_text(d@, 3, "severity"@, sev)
                            && d@[4].0@ == "created_at"@ && d@[4].1 == Json::Int(a.created_at)
                            && has_text(d@, 5, "status"@, "active"@))
                },
            },
    {
        let title = match args.str_at("title") {
            Some(t) => t,
            None => {
                return Err(ToolError::InvalidArguments(owned("title is required")));
            },
        };
        let message = match args.str_at("message") {
            Some(m) => m,
            None => {
                return Err(ToolError::InvalidArguments(owned("message is required")));
            },
        };
        let sev: &str = match args.str_at("severity") {
            Some(s) => s.as_str(),
            None => "info",
        };
        let severity = severity_from(sev);
        let suffix = new_uuid_simple();
        let id = cat("alert_", suffix.as_str());
        proof {
            reveal_strlit("alert_");
            assert(id@.subrange(0, 6) =~= "alert_"@);
        }
        let created_at = now_timestamp();
        let alert = AlertInfo {
            id: id.clone(),
            title: title.clone(),
            message: message.clone(),
            severity,
            created_at,
            acknowledged: false,
            acknowledged_by: None,
            acknowledged_at: None,
        };
        self.alerts.push(alert);
        let mut d: Vec<(String, Json)> = Vec::new();
        d.push((owned("id"), Json::Str(id)));
        d.push(text_member("title", title.as_str()));
        d.push(text_member("message", message.as_str()));
        d.push(text_member("severity", sev));
        d.push((owned("created_at"), Json::Int(created_at)));
        d.push(text_member("status", "active"));
        Ok(ToolOutput::success(Json::Object(d)))
    }
}

impl Default for CreateAlertTool {
    fn default() -> (t: Self)
        ensures
            t.alerts@.len() == 0,
    {
        Self::new()
    }
}

/// The tool `list_alerts`, over a store of alerts.
pub struct ListAlertsTool {
    pub alerts: Vec<AlertInfo>,
}

impl ListAlertsTool {
    /// A tool with no alerts.
    pub fn new() -> (t: Self)
        ensures
            t.alerts@.len() == 0,
    {
        ListAlertsTool { alerts: Vec::new() }
    }

    /// A tool over the given alerts.
    pub fn with_alerts(alerts: Vec<AlertInfo>) -> (t: Self)
        ensures
            t.alerts == alerts,
    {
        ListAlertsTool { alerts }
    }

    /// The name under which the model calls the tool.
    pub fn name(&self) -> (s: &'static str)
        ensures
            s@ == "list_alerts"@,
    {
        "list_alerts"
    }

    /// The alerts that pass the filters of the arguments, at most "limit"
    /// of them, with their count.
    pub fn execute(&self, args: &Json) -> (r: Result<ToolOutput, ToolError>)
        ensures
            r matches Ok(o) && o.success && o.error is None && o.metadata is None && {
                let s = shown(self.alerts@, args.text_at("severity"@), args.bool_at("acknowledged"@),
                    match args.int_at("limit"@) { Some(n) => if n >= 0 { Some(n) } else { None }, None => None });
                o.data matches Json::Object(d) && d@.len() == 2 && d@[0].0@ == "count"@ && is_count(d@[0].1, s.len())
                    && d@[1].0@ == "alerts"@ && (d@[1].1 matches Json::Array(a) && a@.len() == s.len()
                        && forall|i: int| 0 <= i < a@.len() ==> is_alert_obj(#[trigger] a@[i], s[i]))
            },
    {
        let sev: Option<&String> = args.str_at("severity");
        let ack = args.bool_at_key("acknowledged");
        let limit = args.u64_at("limit");
        let ghost sv = match sev { Some(x) => Some(x@), None => None };
        let ghost lim = match args.int_at("limit"@) { Some(n) => if n >= 0 { Some(n) } else { None }, None => None };
        assert(sv == args.text_at("severity"@));
        let ghost p = |a: AlertInfo| listed(a, sv, ack);
        let ghost all = self.alerts@;
        let mut kept: Vec<Json> = Vec::new();
        let mut i: usize = 0;
        proof {
            reveal(Seq::filter);
            assert(all.subrange(0, 0) =~= Seq::<AlertInfo>::empty());
        }
        while i < self.alerts.len()
            invariant
                i <= all.len(),
                all == self.alerts@,
                p == (|a: AlertInfo| listed(a, sv, ack)),
                sv == (match sev { Some(x) => Some(x@), None => None::<Seq<char>> }),
                kept@.len() == all.subrange(0, i as int).filter(p).len(),
                forall|k: int| 0 <= k < kept@.len() ==> is_alert_obj(#[trigger] kept@[k], all.subrange(0, i as int).filter(p)[k]),
            decreases all.len() - i,
        {
            proof {
                crate::tools::discovery::lemma_filter_step(all, p, i as int);
            }
            let a = &self.alerts[i];
            let sev_ok = match sev {
                Some(s) => {
                    if same_text(s.as_str(), "critical") {
                        !(a.severity == AlertSeverity::Critical)
                    } else if same_text(s.as_str(), "error") {
                        !(a.severity == AlertSeverity::Error)
                    } else if same_text(s.as_str(), "warning") {
                        !(a.severity == AlertSeverity::Warning)
                    } else if same_text(s.as_str(), "info") {
                        !(a.severity == AlertSeverity::Info)
                    } else {
                        true
                    }
                },
                None => true,
            };
            let ack_ok = match ack {
                Some(b) => a.acknowledged == b,
                None => true,
            };
            if sev_ok && ack_ok {
                kept.push(a.to_json());
            }
            i = i + 1;
        }
        assert(all.subrange(0, i as int) =~= all);
        let ghost kept_alerts = all.filter(p);
        let n = kept.len();
        let take: usize = match limit {
            Some(l) => if (n as u64) > l { l as usize } else { n },
            None => n,
        };
        let mut out = kept;
        out.truncate(take);
        proof {
            assert(lim == (match limit { Some(l) => Some(l as int), None => None::<int> }));
        }
        let mut d: Vec<(String, Json)> = Vec::new();
        d.push((owned("count"), count(take)));
        d.push((owned("alerts"), Json::Array(out)));
        Ok(ToolOutput::success(Json::Object(d)))
    }
}

impl Default for ListAlertsTool {
    fn default() -> (t: Self)
        ensures
            t.alerts@.len() == 0,
    {
        Self::new()
    }
}

/// The tool `acknowledge_alert`, over a store of alerts.
pub struct AcknowledgeAlertTool {
    pub alerts: Vec<AlertInfo>,
}

impl AcknowledgeAlertTool {
    /// A tool with no alerts.
    pub fn new() -> (t: Self)
        ensures
            t.alerts@.len() == 0,
    {
        AcknowledgeAlertTool { alerts: Vec::new() }
    }

    /// A tool over the given alerts.
    pub fn with_alerts(alerts: Vec<AlertInfo>) -> (t: Self)
        ensures
            t.alerts == alerts,
    {
        AcknowledgeAlertTool { alerts }
    }

    /// The name under which the model calls the tool.
    pub fn name(&self) -> (s: &'static str)
        ensures
            s@ == "acknowledge_alert"@,
    {
        "acknowledge_alert"
    }

    /// Marks the first alert with the id of the arguments as acknowledged,
    /// by the given name ("system" when none) at the current time; an
    /// unknown id gives a failed output.
    pub fn execute(&mut self, args: &Json) -> (r: Result<ToolOutput, ToolError>)
        ensures
            match args.text_at("alert_id"@) {
                None => r matches Err(ToolError::InvalidArguments(m)) && m@ == "alert_id is required"@
                    && final(self).alerts@ == old(self).alerts@,
                Some(id) => {
                    let by = match args.text_at("acknowledged_by"@) {
                        Some(b) => b,
                        None => "system"@,
                    };
                    match first_index(alert_ids(old(self).alerts@), id) {
                        None => final(self).alerts@ == old(self).alerts@ && (r matches Ok(o) && !o.success
                            && opt_chars(o.error) == Some("Alert '"@ + id + "' not found"@)),
                        Some(k) => {
                            let a = final(self).alerts@[k];
                            &&& final(self).alerts@.len() == old(self).alerts@.len()
                            &&& forall|j: int| 0 <= j < old(self).alerts@.len() && j != k
                                ==> #[trigger] final(self).alerts@[j] == old(self).alerts@[j]
                            &&& a.id == old(self).alerts@[k].id && a.title == old(self).alerts@[k].title
                            &&& a.message == old(self).alerts@[k].message && a.severity == old(self).alerts@[k].severity
                            &&& a.created_at == old(self).alerts@[k].created_at
                            &&& a.acknowledged
                            &&& a.acknowledged_by matches Some(b) && b@ == by
                            &&& a.acknowledged_at is Some
                            &&& r matches Ok(o) && o.success && o.error is None && o.metadata is None
                                && (o.data matches Json::Object(d) && d@.len() == 4 && has_text(d@, 0, "alert_id"@, id)
                                    && has_text(d@, 1, "status"@, "acknowledged"@) && has_text(d@, 2, "acknowledged_by"@, by)
                                    && d@[3].0@ == "acknowledged_at"@ && d@[3].1 == Json::Int(a.acknowledged_at->Some_0))
                        },
                    }
                },
            },
    {
        let id = match args.str_at("alert_id") {
            Some(i) => i,
            None => {
                return Err(ToolError::InvalidArguments(owned("alert_id is required")));
            },
        };
        let by: &str = match args.str_at("acknowledged_by") {
            Some(b) => b.as_str(),
            None => "system",
        };
        match alert_position(&self.alerts, id.as_str()) {
            Some(i) => {
                let now = now_timestamp();
                let mut a = self.alerts.remove(i);
                a.acknowledged = true;
                a.acknowledged_by = Some(owned(by));
                a.acknowledged_at = Some(now);
                self.alerts.insert(i, a);
                let mut d: Vec<(String, Json)> = Vec::new();
                d.push(text_member("alert_id", id.as_str()));
                d.push(text_member("status", "acknowledged"));
                d.push(text_member("acknowledged_by", by));
                d.push((owned("acknowledged_at"), Json::Int(now)));
                Ok(ToolOutput::success(Json::Object(d)))
            },
            None => Ok(ToolOutput::error(cat3("Alert '", id.as_str(), "' not found").as_str())),
        }
    }
}

impl Default for AcknowledgeAlertTool {
    fn default() -> (t: Self)
        ensures
            t.alerts@.len() == 0,
    {
        Self::new()
    }
}

} // verus!
